use vstd::prelude::*;
use vstd::string::*;

verus! {

/// The event that opens the universal search window.
pub struct UniversalSearchOpen;

/// The event that closes the universal search window.
pub struct UniversalSearchClose;

/// The universal search shell plugin.
pub struct UniversalSearchPlugin;

/// What a search result stands for.
#[derive(Clone, Copy, Debug, PartialEq, Eq, Structural)]
pub enum SearchResultType {
    App,
    File,
    Action,
}

/// One row of the universal search results, with its icon of type `I`.
pub struct SearchResult<I> {
    pub name: String,
    pub icon: I,
    pub result_type: SearchResultType,
}

/// `s` holds a result named `name` of type `t`.
pub open spec fn has_entry<I>(s: Seq<SearchResult<I>>, name: Seq<char>, t: SearchResultType) -> bool {
    exists|j: int| 0 <= j < s.len() && (#[trigger] s[j]).name@ == name && s[j].result_type == t
}

/// `s` with every result whose name and type were already met dropped: the
/// first result of each name and type stays, in its place.
pub open spec fn dedup_results<I>(s: Seq<SearchResult<I>>) -> Seq<SearchResult<I>>
    decreases s.len(),
{
    if s.len() == 0 {
        Seq::empty()
    } else {
        let d = dedup_results(s.drop_last());
        if has_entry(d, s.last().name@, s.last().result_type) {
            d
        } else {
            d.push(s.last())
        }
    }
}

/// The results made of `(name, icon)` pairs, all of type `t`.
pub open spec fn tagged<I>(items: Seq<(String, I)>, t: SearchResultType) -> Seq<SearchResult<I>> {
    items.map_values(|p: (String, I)| SearchResult { name: p.0, icon: p.1, result_type: t })
}

/// No two results of `s` share a name and a type.
pub open spec fn no_duplicate_entries<I>(s: Seq<SearchResult<I>>) -> bool {
    forall|i: int, j: int|
        0 <= i < j < s.len() ==> !((#[trigger] s[i]).name@ == (#[trigger] s[j]).name@
            && s[i].result_type == s[j].result_type)
}

/// Merging keeps one result per name and type: no two merged results share
/// both, every merged result is one of the inputs, and every input's name and
/// type is among the merged results.
pub proof fn lemma_dedup_results<I>(s: Seq<SearchResult<I>>)
    ensures
        no_duplicate_entries(dedup_results(s)),
        forall|k: int| 0 <= k < dedup_results(s).len() ==> s.contains(#[trigger] dedup_results(s)[k]),
        forall|k: int| 0 <= k < s.len() ==>
            has_entry(dedup_results(s), (#[trigger] s[k]).name@, s[k].result_type),
    decreases s.len(),
{
    if s.len() > 0 {
        let p = s.drop_last();
        lemma_dedup_results(p);
        let d = dedup_results(p);
        assert forall|k: int| 0 <= k < d.len() implies s.contains(#[trigger] d[k]) by {
            let w = choose|w: int| 0 <= w < p.len() && p[w] == d[k];
            assert(s[w] == d[k]);
        }
        if !has_entry(d, s.last().name@, s.last().result_type) {
            let e = d.push(s.last());
            assert(s[s.len() - 1] == s.last());
            assert forall|k: int| 0 <= k < e.len() implies s.contains(#[trigger] e[k]) by {
                if k < d.len() {
                    assert(e[k] == d[k]);
                } else {
                    assert(s[s.len() - 1] == e[k]);
                }
            }
            assert forall|k: int| 0 <= k < s.len() implies
                has_entry(e, (#[trigger] s[k]).name@, s[k].result_type) by {
                if k < p.len() {
                    assert(p[k] == s[k]);
                    let w = choose|w: int| 0 <= w < d.len() && (#[trigger] d[w]).name@ == p[k].name@
                        && d[w].result_type == p[k].result_type;
                    assert(e[w] == d[w]);
                } else {
                    assert(e[d.len() as int] == s[k]);
                }
            }
        } else {
            assert forall|k: int| 0 <= k < s.len() implies
                has_entry(d, (#[trigger] s[k]).name@, s[k].result_type) by {
                if k < p.len() {
                    assert(p[k] == s[k]);
                }
            }
        }
    }
}

/// No result of `s` before index `k` has the name and type of `s[k]`.
spec fn first_of_its_kind<I>(s: Seq<SearchResult<I>>, k: int) -> bool {
    forall|k2: int| 0 <= k2 < k ==> !((#[trigger] s[k2]).name@ == s[k].name@
        && s[k2].result_type == s[k].result_type)
}

/// Of every name and type, merging keeps the result met first.
proof fn lemma_dedup_keeps_first<I>(s: Seq<SearchResult<I>>)
    ensures
        forall|j: int| 0 <= j < dedup_results(s).len() ==> exists|k: int|
            0 <= k < s.len() && s[k] == #[trigger] dedup_results(s)[j] && first_of_its_kind(s, k),
    decreases s.len(),
{
    if s.len() > 0 {
        let p = s.drop_last();
        lemma_dedup_keeps_first(p);
        lemma_dedup_results(p);
        let d = dedup_results(p);
        assert forall|j: int| 0 <= j < d.len() implies exists|k: int|
            0 <= k < s.len() && s[k] == #[trigger] d[j] && first_of_its_kind(s, k) by {
            let k = choose|k: int| 0 <= k < p.len() && p[k] == #[trigger] d[j] && first_of_its_kind(p, k);
            assert(s[k] == p[k]);
            assert forall|k2: int| 0 <= k2 < k implies !((#[trigger] s[k2]).name@ == s[k].name@
                && s[k2].result_type == s[k].result_type) by {
                assert(s[k2] == p[k2]);
            }
            assert(first_of_its_kind(s, k));
        }
        if !has_entry(d, s.last().name@, s.last().result_type) {
            let e = d.push(s.last());
            let last = s.len() - 1;
            assert(s[last] == s.last());
            assert forall|k2: int| 0 <= k2 < last implies !((#[trigger] s[k2]).name@ == s[last].name@
                && s[k2].result_type == s[last].result_type) by {
                assert(s[k2] == p[k2]);
                assert(has_entry(d, p[k2].name@, p[k2].result_type));
            }
            assert(first_of_its_kind(s, last));
            assert forall|j: int| 0 <= j < e.len() implies exists|k: int|
                0 <= k < s.len() && s[k] == #[trigger] e[j] && first_of_its_kind(s, k) by {
                if j < d.len() {
                    assert(e[j] == d[j]);
                } else {
                    assert(e[j] == s[last]);
                }
            }
        }
    }
}

/// Merging drops a result only for another of the very same name and type:
/// every application found stands among the merged results under its own
/// name as an application, every file under its own name as a file, and no
/// two merged results share both name and type.
pub proof fn lemma_merge_keeps_every_found_name<I>(apps: Seq<(String, I)>, files: Seq<(String, I)>)
    ensures
        forall|k: int| 0 <= k < apps.len() ==> exists|j: int|
            0 <= j < merged_results(apps, files).len()
            && (#[trigger] merged_results(apps, files)[j]).name@ == (#[trigger] apps[k]).0@
            && merged_results(apps, files)[j].result_type == SearchResultType::App,
        forall|k: int| 0 <= k < files.len() ==> exists|j: int|
            0 <= j < merged_results(apps, files).len()
            && (#[trigger] merged_results(apps, files)[j]).name@ == (#[trigger] files[k]).0@
            && merged_results(apps, files)[j].result_type == SearchResultType::File,
        forall|i: int, j: int| 0 <= i < j < merged_results(apps, files).len() ==>
            !((#[trigger] merged_results(apps, files)[i]).name@ == (#[trigger] merged_results(apps, files)[j]).name@
                && merged_results(apps, files)[i].result_type == merged_results(apps, files)[j].result_type),
{
    let a = tagged(apps, SearchResultType::App);
    let f = tagged(files, SearchResultType::File);
    let s = a + f;
    let m = merged_results(apps, files);
    lemma_dedup_results(s);
    assert forall|k: int| 0 <= k < apps.len() implies exists|j: int|
        0 <= j < m.len() && (#[trigger] m[j]).name@ == (#[trigger] apps[k]).0@
        && m[j].result_type == SearchResultType::App by {
        assert(s[k] == a[k]);
        assert(has_entry(m, s[k].name@, s[k].result_type));
    }
    assert forall|k: int| 0 <= k < files.len() implies exists|j: int|
        0 <= j < m.len() && (#[trigger] m[j]).name@ == (#[trigger] files[k]).0@
        && m[j].result_type == SearchResultType::File by {
        assert(s[a.len() + k] == f[k]);
        assert(has_entry(m, s[a.len() + k].name@, s[a.len() + k].result_type));
    }
}

/// Each merged result is the first found of its name and type: an
/// application result is the first application found of its name, with that
/// application's icon; a file result is the first file found of its name,
/// with that file's icon.
pub proof fn lemma_merge_keeps_first_found<I>(apps: Seq<(String, I)>, files: Seq<(String, I)>, j: int)
    requires
        0 <= j < merged_results(apps, files).len(),
    ensures
        merged_results(apps, files)[j].result_type == SearchResultType::App ==> exists|k: int|
            0 <= k < apps.len() && merged_results(apps, files)[j].name == (#[trigger] apps[k]).0
            && merged_results(apps, files)[j].icon == apps[k].1
            && forall|k2: int| 0 <= k2 < k ==> (#[trigger] apps[k2]).0@ != apps[k].0@,
        merged_results(apps, files)[j].result_type == SearchResultType::File ==> exists|k: int|
            0 <= k < files.len() && merged_results(apps, files)[j].name == (#[trigger] files[k]).0
            && merged_results(apps, files)[j].icon == files[k].1
            && forall|k2: int| 0 <= k2 < k ==> (#[trigger] files[k2]).0@ != files[k].0@,
        merged_results(apps, files)[j].result_type != SearchResultType::Action,
{
    let a = tagged(apps, SearchResultType::App);
    let f = tagged(files, SearchResultType::File);
    let s = a + f;
    let m = merged_results(apps, files);
    lemma_dedup_keeps_first(s);
    let k = choose|k: int| 0 <= k < s.len() && s[k] == #[trigger] m[j] && first_of_its_kind(s, k);
    if k < a.len() {
        assert(s[k] == a[k]);
        assert forall|k2: int| 0 <= k2 < k implies (#[trigger] apps[k2]).0@ != apps[k].0@ by {
            assert(s[k2] == a[k2]);
        }
    } else {
        let kf = k - a.len();
        assert(s[k] == f[kf]);
        assert forall|k2: int| 0 <= k2 < kf implies (#[trigger] files[k2]).0@ != files[kf].0@ by {
            assert(s[a.len() + k2] == f[k2]);
        }
    }
}

/// The results of a search that found the applications `apps` and the files
/// `files`: the applications, then the files, one result per name and type.
pub open spec fn merged_results<I>(apps: Seq<(String, I)>, files: Seq<(String, I)>) -> Seq<SearchResult<I>> {
    dedup_results(tagged(apps, SearchResultType::App) + tagged(files, SearchResultType::File))
}

/// The results shown after a search that found `apps` and `files` while
/// `current` was shown.
pub open spec fn shown_after_update<I>(
    apps: Seq<(String, I)>,
    files: Seq<(String, I)>,
    current: Seq<SearchResult<I>>,
) -> Seq<SearchResult<I>> {
    if apps.len() == 0 && files.len() == 0 && current.len() == 0 {
        current
    } else {
        merged_results(apps, files)
    }
}

/// The results shown after the search text changed to `text` while `current`
/// was shown.
pub open spec fn shown_after_query<I>(text: Seq<char>, current: Seq<SearchResult<I>>) -> Seq<SearchResult<I>> {
    if text.len() == 0 {
        Seq::empty()
    } else {
        current
    }
}

/// The shown search results never hold two results of one name and type:
/// a new search's results replace them without any, and a change of the
/// search text either keeps them or clears them.
pub proof fn lemma_shown_results_stay_unique<I>(
    apps: Seq<(String, I)>,
    files: Seq<(String, I)>,
    text: Seq<char>,
    current: Seq<SearchResult<I>>,
)
    requires
        no_duplicate_entries(current),
    ensures
        no_duplicate_entries(shown_after_update(apps, files, current)),
        no_duplicate_entries(shown_after_query(text, current)),
{
    lemma_dedup_results(tagged(apps, SearchResultType::App) + tagged(files, SearchResultType::File));
}

fn contains_entry<I>(v: &Vec<SearchResult<I>>, name: &String, t: SearchResultType) -> (res: bool)
    ensures
        res == has_entry(v@, name@, t),
{
    let mut i: usize = 0;
    while i < v.len()
        invariant
            i <= v@.len(),
            forall|j: int| 0 <= j < i ==> !((#[trigger] v@[j]).name@ == name@ && v@[j].result_type == t),
        decreases v@.len() - i,
    {
        if v[i].result_type == t && v[i].name == *name {
            return true;
        }
        i = i + 1;
    }
    false
}

fn push_unique<I>(out: &mut Vec<SearchResult<I>>, items: Vec<(String, I)>, t: SearchResultType, Ghost(before): Ghost<Seq<SearchResult<I>>>)
    requires
        old(out)@ == dedup_results(before),
    ensures
        final(out)@ == dedup_results(before + tagged(items@, t)),
{
    let ghost all = tagged(items@, t);
    assert(before + all.take(0) =~= before);
    for item in it: items.into_iter()
        invariant
            it.seq() == items@,
            all == tagged(items@, t),
            out@ == dedup_results(before + all.take(it.index())),
    {
        let (name, icon) = item;
        let ghost k = it.index();
        let ghost prefix = before + all.take(k + 1);
        assert(prefix.drop_last() =~= before + all.take(k));
        assert(prefix.last() == all[k]);
        if !contains_entry(out, &name, t) {
            out.push(SearchResult { name, icon, result_type: t });
        }
    }
    assert(all.take(items@.len() as int) =~= all);
}

/// The merged results of a search: the applications found (`apps`), then the
/// files found (`files`), each with its icon, keeping one result per name and
/// type. `None` when there is nothing to show and nothing shown (`current`
/// empty): the shown results are then left as they are.
pub fn update_search_results<I>(
    apps: Vec<(String, I)>,
    files: Vec<(String, I)>,
    current: &Vec<SearchResult<I>>,
) -> (res: Option<Vec<SearchResult<I>>>)
    ensures
        res is None <==> (apps@.len() == 0 && files@.len() == 0 && current@.len() == 0),
        res matches Some(v) ==> v@ == merged_results(apps@, files@),
{
    if apps.len() == 0 && files.len() == 0 && current.len() == 0 {
        return None;
    }
    let ghost a = tagged(apps@, SearchResultType::App);
    let ghost f = tagged(files@, SearchResultType::File);
    let mut out: Vec<SearchResult<I>> = Vec::new();
    assert(dedup_results(Seq::<SearchResult<I>>::empty()) =~= out@);
    push_unique(&mut out, apps, SearchResultType::App, Ghost(Seq::empty()));
    assert(Seq::<SearchResult<I>>::empty() + a =~= a);
    push_unique(&mut out, files, SearchResultType::File, Ghost(a));
    Some(out)
}

/// The icon shown when the icon found for a result cannot be shown.
pub open spec fn spec_default_icon(t: SearchResultType) -> Seq<char> {
    match t {
        SearchResultType::App => "icons/kitty.png"@,
        SearchResultType::File => "icons/files.png"@,
        SearchResultType::Action => "icons/rotation_on.png"@,
    }
}

/// The icon shown when the icon found for a result cannot be shown.
pub fn default_icon(t: SearchResultType) -> (icon: &'static str)
    ensures
        icon@ == spec_default_icon(t),
{
    match t {
        SearchResultType::App => "icons/kitty.png",
        SearchResultType::File => "icons/files.png",
        SearchResultType::Action => "icons/rotation_on.png",
    }
}

/// What `std::path::Path::extension` returns for the path `path`, as text.
pub uninterp spec fn path_extension(path: Seq<char>) -> Option<Seq<char>>;

/// `std::path::Path::extension` on the path `path`: the text after the last
/// `.` of the path's file name, as the standard library documents it. The
/// extension of a path given as text is text again, so its conversion back
/// never fails; the contract names the result and says no more of it.
#[verifier::external_body]
fn extension_of(path: &str) -> (ext: Option<String>)
    ensures
        ext matches Some(e) ==> path_extension(path@) == Some(e@),
        ext is None ==> path_extension(path@) is None,
{
    match std::path::Path::new(path).extension() {
        Some(e) => match e.to_str() {
            Some(text) => Some(text.to_string()),
            None => None,
        },
        None => None,
    }
}

/// The image shown for a result of type `t` whose icon file was found at
/// `found`, given the extension `ext` of that file: an SVG icon is replaced
/// by the default icon of the type, a PNG icon is shown, anything else
/// (no icon found included) shows the files icon.
pub open spec fn spec_icon_for_extension(ext: Option<Seq<char>>, found: Seq<char>, t: SearchResultType) -> Seq<char> {
    if ext == Some("svg"@) {
        spec_default_icon(t)
    } else if ext == Some("png"@) {
        found
    } else {
        "icons/files.png"@
    }
}

/// The image shown for a result of type `t` whose icon file was found at
/// `found`, given the extension `ext` of that file.
pub fn icon_for_extension(ext: Option<String>, found: &str, t: SearchResultType) -> (icon: String)
    ensures
        icon@ == spec_icon_for_extension(
            match ext { Some(e) => Some(e@), None => None },
            found@,
            t,
        ),
{
    match ext {
        Some(e) => {
            if e == String::from_str("svg") {
                String::from_str(default_icon(t))
            } else if e == String::from_str("png") {
                String::from_str(found)
            } else {
                String::from_str("icons/files.png")
            }
        },
        None => String::from_str("icons/files.png"),
    }
}

/// The image shown for a result of type `t` whose icon lookup found the file
/// `found` (empty when none was found).
pub fn icon_asset_path(found: &str, t: SearchResultType) -> (icon: String)
    ensures
        icon@ == spec_icon_for_extension(path_extension(found@), found@, t),
{
    icon_for_extension(extension_of(found), found, t)
}

/// `items` as `(name, found)` pairs, where `found` is the icon file found for
/// the result (empty when none was): each with the image shown for it as a
/// result of type `t`.
pub open spec fn spec_resolve_icons(items: Seq<(String, String)>, t: SearchResultType) -> Seq<(Seq<char>, Seq<char>)> {
    items.map_values(|p: (String, String)| (p.0@, spec_icon_for_extension(path_extension(p.1@), p.1@, t)))
}

/// Each resolved item keeps its name and takes the image shown for its found
/// file: an SVG file shows the default icon of the type, a PNG file shows
/// itself, anything else shows the files icon; so only for SVG files does
/// the type of the results matter.
pub proof fn lemma_resolved_icons(items: Seq<(String, String)>, t: SearchResultType, u: SearchResultType)
    ensures
        spec_resolve_icons(items, t).len() == items.len(),
        forall|k: int| 0 <= k < items.len() ==>
            (#[trigger] spec_resolve_icons(items, t)[k]).0 == items[k].0@,
        forall|k: int| 0 <= k < items.len() && path_extension(items[k].1@) == Some("svg"@) ==>
            (#[trigger] spec_resolve_icons(items, t)[k]).1 == spec_default_icon(t),
        forall|k: int| 0 <= k < items.len() && path_extension(items[k].1@) == Some("png"@) ==>
            (#[trigger] spec_resolve_icons(items, t)[k]).1 == items[k].1@,
        forall|k: int| 0 <= k < items.len() && path_extension(items[k].1@) != Some("svg"@)
            && path_extension(items[k].1@) != Some("png"@) ==>
            (#[trigger] spec_resolve_icons(items, t)[k]).1 == "icons/files.png"@,
        forall|k: int| 0 <= k < items.len() && path_extension(items[k].1@) != Some("svg"@) ==>
            (#[trigger] spec_resolve_icons(items, t)[k]).1 == spec_resolve_icons(items, u)[k].1,
{
    reveal_strlit("svg");
    reveal_strlit("png");
    assert("svg"@[0] != "png"@[0]);
}

/// Pairs each `(name, found)` of `items` with the image shown for it as a
/// result of type `t`.
pub fn resolve_icons(items: Vec<(String, String)>, t: SearchResultType) -> (res: Vec<(String, String)>)
    ensures
        res@.len() == items@.len(),
        forall|k: int| 0 <= k < items@.len() ==>
            ((#[trigger] res@[k]).0@, res@[k].1@) == spec_resolve_icons(items@, t)[k],
{
    let mut res: Vec<(String, String)> = Vec::new();
    for item in it: items.into_iter()
        invariant
            it.seq() == items@,
            res@.len() == it.index(),
            forall|k: int| 0 <= k < it.index() ==>
                ((#[trigger] res@[k]).0@, res@[k].1@) == spec_resolve_icons(items@, t)[k],
    {
        let (name, found) = item;
        let icon = icon_asset_path(found.as_str(), t);
        res.push((name, icon));
    }
    res
}

/// The results of a search that found the applications `apps` and the files
/// `files`, each as `(name, found)` with the icon file found for it: every
/// icon replaced by the image shown for it (applications as applications,
/// files as files), then merged as `update_search_results` merges.
pub fn update_search_results_with_icons(
    apps: Vec<(String, String)>,
    files: Vec<(String, String)>,
    current: &Vec<SearchResult<String>>,
) -> (res: Option<Vec<SearchResult<String>>>)
    ensures
        res is None <==> (apps@.len() == 0 && files@.len() == 0 && current@.len() == 0),
        res matches Some(v) ==> exists|a: Seq<(String, String)>, f: Seq<(String, String)>|
            a.len() == apps@.len() && f.len() == files@.len()
            && (forall|k: int| 0 <= k < a.len() ==>
                ((#[trigger] a[k]).0@, a[k].1@) == spec_resolve_icons(apps@, SearchResultType::App)[k])
            && (forall|k: int| 0 <= k < f.len() ==>
                ((#[trigger] f[k]).0@, f[k].1@) == spec_resolve_icons(files@, SearchResultType::File)[k])
            && v@ == merged_results(a, f),
{
    let a = resolve_icons(apps, SearchResultType::App);
    let f = resolve_icons(files, SearchResultType::File);
    update_search_results(a, f, current)
}

/// A request to the search service.
#[derive(Debug)]
pub enum MxSearchAction {
    SearchApplications(String),
    SearchFiles(String),
}

/// What a change of the search text asks for: whether the shown results are
/// cleared first, and the requests sent.
pub struct SearchQuery {
    pub clear_results: bool,
    pub actions: Vec<MxSearchAction>,
}

/// The requests made when the search text becomes `search_text`: an empty
/// text first clears the shown results; then the applications and the files
/// are searched for the text, in that order.
pub fn query_search_results(search_text: &String) -> (q: SearchQuery)
    ensures
        q.clear_results == (search_text@.len() == 0),
        q.actions@.len() == 2,
        q.actions@[0] matches MxSearchAction::SearchApplications(t) && t@ == search_text@,
        q.actions@[1] matches MxSearchAction::SearchFiles(t) && t@ == search_text@,
{
    let clear_results = search_text.as_str().is_empty();
    let mut actions: Vec<MxSearchAction> = Vec::new();
    actions.push(MxSearchAction::SearchApplications(search_text.clone()));
    actions.push(MxSearchAction::SearchFiles(search_text.clone()));
    SearchQuery { clear_results, actions }
}

/// The label of the row that searches `text` with the browser `browser`.
pub open spec fn spec_browser_label(text: Seq<char>, browser: Seq<char>) -> Seq<char> {
    "Search "@ + text + " on "@ + browser
}

/// A browser row's label holds the whole search text and the whole browser
/// name: "Search ", the text, " on ", the browser name, and nothing else; so
/// two different texts never share a label for one browser, nor do two
/// different browsers for texts of one length.
pub proof fn lemma_browser_label_holds_whole_text(text: Seq<char>, browser: Seq<char>, text2: Seq<char>, browser2: Seq<char>)
    ensures
        spec_browser_label(text, browser).len() == text.len() + browser.len() + 11,
        spec_browser_label(text, browser).take(7) == "Search "@,
        spec_browser_label(text, browser).subrange(7, 7 + text.len() as int) == text,
        spec_browser_label(text, browser).subrange(7 + text.len() as int, 11 + text.len() as int) == " on "@,
        spec_browser_label(text, browser).skip(11 + text.len() as int) == browser,
        browser == browser2 && spec_browser_label(text, browser) == spec_browser_label(text2, browser2) ==>
            text == text2,
        text.len() == text2.len() && spec_browser_label(text, browser) == spec_browser_label(text2, browser2) ==>
            text == text2 && browser == browser2,
{
    reveal_strlit("Search ");
    reveal_strlit(" on ");
    let l = spec_browser_label(text, browser);
    let n = text.len() as int;
    assert(l.take(7) =~= "Search "@);
    assert(l.subrange(7, 7 + n) =~= text);
    assert(l.subrange(7 + n, 11 + n) =~= " on "@);
    assert(l.skip(11 + n) =~= browser);
    let l2 = spec_browser_label(text2, browser2);
    let n2 = text2.len() as int;
    assert(l2.subrange(7, 7 + n2) =~= text2);
    assert(l2.skip(11 + n2) =~= browser2);
}

/// The rows shown for the search text `search_text`: the results, then one
/// row per browser of `browser_apps` (name and icon) that offers to search
/// the text with that browser.
pub fn update_search_results_mod<I>(
    results: Vec<SearchResult<I>>,
    browser_apps: Vec<(String, I)>,
    search_text: &str,
) -> (rows: Vec<SearchResult<I>>)
    ensures
        rows@.len() == results@.len() + browser_apps@.len(),
        forall|k: int| 0 <= k < results@.len() ==> rows@[k] == results@[k],
        forall|k: int| 0 <= k < browser_apps@.len() ==> {
            let row = #[trigger] rows@[results@.len() + k];
            &&& row.name@ == spec_browser_label(search_text@, browser_apps@[k].0@)
            &&& row.icon == browser_apps@[k].1
            &&& row.result_type == SearchResultType::App
        },
{
    let mut rows = results;
    let ghost n = rows@.len();
    let ghost first = rows@;
    for app in it: browser_apps.into_iter()
        invariant
            it.seq() == browser_apps@,
            n == first.len(),
            rows@.len() == n + it.index(),
            forall|k: int| 0 <= k < n ==> rows@[k] == first[k],
            forall|k: int| 0 <= k < it.index() ==> {
                let row = #[trigger] rows@[n + k];
                &&& row.name@ == spec_browser_label(search_text@, browser_apps@[k].0@)
                &&& row.icon == browser_apps@[k].1
                &&& row.result_type == SearchResultType::App
            },
    {
        let (name, icon) = app;
        let mut label = String::from_str("Search ");
        label.append(search_text);
        label.append(" on ");
        label.append(name.as_str());
        rows.push(SearchResult { name: label, icon, result_type: SearchResultType::App });
    }
    rows
}

} // verus!
