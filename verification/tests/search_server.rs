use mechanix::search_server::{SERVED_AT, SearchConfig, SearchSettings, ServerInterface, ServiceError};

struct AppBackend {
    names: Vec<String>,
    recent: Vec<String>,
}

fn config(apps: bool, files: bool, actions: bool) -> SearchConfig {
    SearchConfig {
        apps: SearchSettings { enable_search: apps, search_limit: 5 },
        files: SearchSettings { enable_search: files, search_limit: 7 },
        app_actions: SearchSettings { enable_search: actions, search_limit: 9 },
    }
}

fn server(apps: bool, files: bool, actions: bool) -> ServerInterface<AppBackend, u32, u32> {
    ServerInterface {
        config: config(apps, files, actions),
        app_search_service: Some(AppBackend { names: vec!["Firefox".to_string()], recent: vec![] }),
        file_search_service: Some(11),
        app_actions_service: Some(13),
    }
}

fn message<T>(r: Result<T, ServiceError>) -> String {
    match r {
        Err(ServiceError::Failed(m)) => m,
        Ok(_) => panic!("expected a failure"),
    }
}

#[test]
fn search_applications_answers_backend_value() {
    let s = server(true, true, true);
    let r = s.search_applications("fire", |b: &AppBackend, q: &str, limit: usize| {
        Ok::<_, ()>((b.names.clone(), q.to_string(), limit))
    });
    assert_eq!(r.unwrap(), (vec!["Firefox".to_string()], "fire".to_string(), 5));
}

#[test]
fn search_applications_maps_backend_error() {
    let s = server(true, true, true);
    let r = s.search_applications("x", |_b: &AppBackend, _q: &str, _l: usize| Err::<u8, _>("boom"));
    assert_eq!(message(r), "Error searching apps");
}

#[test]
fn search_applications_disabled_is_refused_without_calling() {
    let s = server(false, true, true);
    let r = s.search_applications("x", |_b: &AppBackend, _q: &str, _l: usize| -> Result<u8, ()> {
        panic!("the backend must not be called")
    });
    assert_eq!(message(r), "Search Apps is disabled");
}

#[test]
fn search_applications_without_backend() {
    let mut s = server(true, true, true);
    s.app_search_service = None;
    let r = s.search_applications("x", |_b: &AppBackend, _q: &str, _l: usize| Ok::<u8, ()>(1));
    assert_eq!(message(r), "Search Apps is disabled");
}

#[test]
fn list_applications_branches() {
    let s = server(true, true, true);
    assert_eq!(s.list_applications(|_b: &AppBackend, l: usize| Ok::<_, ()>(l)).unwrap(), 5);
    assert_eq!(message(s.list_applications(|_b: &AppBackend, _l: usize| Err::<u8, _>(()))), "Error listing apps");
    let d = server(false, true, true);
    assert_eq!(message(d.list_applications(|_b: &AppBackend, l: usize| Ok::<_, ()>(l))), "Search Apps is disabled");
}

#[test]
fn search_files_branches() {
    let s = server(true, true, true);
    let r = s.search_files("doc", |b: &u32, q: &str, l: usize| Ok::<_, ()>((*b, q.len(), l)));
    assert_eq!(r.unwrap(), (11, 3, 7));
    assert_eq!(message(s.search_files("doc", |_b: &u32, _q: &str, _l: usize| Err::<u8, _>(()))), "Error searching files");
    let d = server(true, false, true);
    assert_eq!(message(d.search_files("doc", |_b: &u32, _q: &str, l: usize| Ok::<_, ()>(l))), "Search Files option is disabled");
    let mut n = server(true, true, true);
    n.file_search_service = None;
    assert_eq!(message(n.search_files("doc", |_b: &u32, _q: &str, l: usize| Ok::<_, ()>(l))), "Search Files is disabled");
}

#[test]
fn search_app_actions_uses_the_apps_limit() {
    let s = server(true, true, true);
    let r = s.search_app_actions("rot", |b: &u32, _q: &str, l: usize| Ok::<_, ()>((*b, l)));
    assert_eq!(r.unwrap(), (13, 5));
    assert_eq!(message(s.search_app_actions("rot", |_b: &u32, _q: &str, _l: usize| Err::<u8, _>(()))), "Error searching app actions");
    let d = server(true, true, false);
    assert_eq!(message(d.search_app_actions("rot", |_b: &u32, _q: &str, l: usize| Ok::<_, ()>(l))), "Search App Action is disabled");
    let mut n = server(true, true, true);
    n.app_actions_service = None;
    assert_eq!(message(n.search_app_actions("rot", |_b: &u32, _q: &str, l: usize| Ok::<_, ()>(l))), "Search App Action is disabled");
}

#[test]
fn register_recent_apps_updates_backend() {
    let mut s = server(true, true, true);
    let r = s.register_recent_apps("Firefox".to_string(), |b: &mut AppBackend, app: String| {
        b.recent.push(app.clone());
        Ok::<_, ()>(app)
    });
    assert_eq!(r.unwrap(), "Firefox");
    assert_eq!(s.app_search_service.as_ref().unwrap().recent, vec!["Firefox".to_string()]);
    let e = s.register_recent_apps(1u8, |_b: &mut AppBackend, _a: u8| Err::<String, _>(()));
    assert_eq!(message(e), "Error searching app actions");
}

#[test]
fn register_recent_apps_refusals() {
    let mut d = server(false, true, true);
    assert_eq!(message(d.register_recent_apps(1u8, |_b: &mut AppBackend, _a: u8| Ok::<String, ()>(String::new()))), "Search App is disabled");
    let mut n = server(true, true, true);
    n.app_search_service = None;
    assert_eq!(message(n.register_recent_apps(1u8, |_b: &mut AppBackend, _a: u8| Ok::<String, ()>(String::new()))), "Search App Action is disabled");
}

#[test]
fn list_recent_apps_branches() {
    let s = server(true, true, true);
    assert_eq!(s.list_recent_apps(|b: &AppBackend| Ok::<_, ()>(b.recent.len())).unwrap(), 0);
    assert_eq!(message(s.list_recent_apps(|_b: &AppBackend| Err::<u8, _>(()))), "Error searching app actions");
    let d = server(false, true, true);
    assert_eq!(message(d.list_recent_apps(|_b: &AppBackend| Ok::<u8, ()>(0))), "Search App is disabled");
    let mut n = server(true, true, true);
    n.app_search_service = None;
    assert_eq!(message(n.list_recent_apps(|_b: &AppBackend| Ok::<u8, ()>(0))), "Search App Action is disabled");
}

#[test]
fn served_at_path() {
    assert_eq!(SERVED_AT, "/org/mechanix/MxSearch");
}
