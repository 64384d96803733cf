use vstd::prelude::*;
use vstd::string::*;

verus! {

/// The D-Bus path at which the search service is served.
pub const SERVED_AT: &'static str = "/org/mechanix/MxSearch";

/// Settings of one search backend.
#[derive(Clone, Copy, Debug)]
pub struct SearchSettings {
    pub enable_search: bool,
    pub search_limit: usize,
}

/// Configuration of the search service.
#[derive(Clone, Copy, Debug)]
pub struct SearchConfig {
    pub apps: SearchSettings,
    pub files: SearchSettings,
    pub app_actions: SearchSettings,
}

/// The error a D-Bus method of the search service answers with.
#[derive(Debug)]
pub enum ServiceError {
    Failed(String),
}

impl ServiceError {
    /// The text of the error.
    pub open spec fn message(self) -> Seq<char> {
        match self {
            ServiceError::Failed(m) => m@,
        }
    }
}

/// `res` is the failure with text `msg`.
pub open spec fn fails_with<T>(res: Result<T, ServiceError>, msg: Seq<char>) -> bool {
    res is Err && res->Err_0.message() == msg
}

/// `res` answers the outcome `out` of a backend call: its value, or the
/// failure with text `msg` whatever the backend's error was.
pub open spec fn answers<T, E>(res: Result<T, ServiceError>, out: Result<T, E>, msg: Seq<char>) -> bool {
    match out {
        Ok(v) => res == Ok::<T, ServiceError>(v),
        Err(_) => fails_with(res, msg),
    }
}

fn failed<T>(msg: &str) -> (res: Result<T, ServiceError>)
    ensures
        fails_with(res, msg@),
{
    Err(ServiceError::Failed(String::from_str(msg)))
}

fn answer<T, E>(out: Result<T, E>, msg: &str) -> (res: Result<T, ServiceError>)
    ensures
        answers(res, out, msg@),
{
    match out {
        Ok(v) => Ok(v),
        Err(_) => failed(msg),
    }
}

/// The refusal `search_files` answers with, given the file search settings
/// and whether a file backend is present: `None` when it asks the backend.
pub open spec fn search_files_refusal(files: SearchSettings, has_backend: bool) -> Option<Seq<char>> {
    if !files.enable_search {
        Some("Search Files option is disabled"@)
    } else if !has_backend {
        Some("Search Files is disabled"@)
    } else {
        None
    }
}

/// `search_files` reads nothing but the file search settings and the file
/// backend: two servers that agree on those refuse alike, and otherwise ask
/// the same backend with the same limit, whatever their application settings
/// and other backends are.
pub proof fn lemma_search_files_reads_only_files<A1, X1, A2, X2, F>(
    s1: ServerInterface<A1, F, X1>,
    s2: ServerInterface<A2, F, X2>,
)
    requires
        s1.config.files == s2.config.files,
        s1.file_search_service == s2.file_search_service,
    ensures
        search_files_refusal(s1.config.files, s1.file_search_service is Some)
            == search_files_refusal(s2.config.files, s2.file_search_service is Some),
        search_files_refusal(s1.config.files, s1.file_search_service is Some) is None ==>
            s1.file_search_service->Some_0 == s2.file_search_service->Some_0
            && s1.config.files.search_limit == s2.config.files.search_limit,
{
}

/// `search_files` refuses exactly when the file search is off or has no
/// backend, and never for any other reason: its search limit plays no part
/// in whether or how it refuses.
pub proof fn lemma_search_files_refuses_only_when_off(files: SearchSettings, other: SearchSettings, has_backend: bool)
    ensures
        search_files_refusal(files, has_backend) is None <==> (files.enable_search && has_backend),
        !files.enable_search ==> search_files_refusal(files, has_backend) == Some("Search Files option is disabled"@),
        files.enable_search && !has_backend ==> search_files_refusal(files, has_backend) == Some("Search Files is disabled"@),
        other.enable_search == files.enable_search ==>
            search_files_refusal(other, has_backend) == search_files_refusal(files, has_backend),
{
}

/// The search service served on D-Bus, over its application search (`A`),
/// file search (`F`) and application-action (`X`) backends.
pub struct ServerInterface<A, F, X> {
    pub config: SearchConfig,
    pub app_search_service: Option<A>,
    pub file_search_service: Option<F>,
    pub app_actions_service: Option<X>,
}

impl<A, F, X> ServerInterface<A, F, X> {
    /// Searches the applications for `search`; `run` is the application
    /// search backend's `search`, called with the application search limit.
    pub fn search_applications<T, E, C>(&self, search: &str, run: C) -> (res: Result<T, ServiceError>)
        where C: FnOnce(&A, &str, usize) -> Result<T, E>,
        requires
            self.config.apps.enable_search && self.app_search_service is Some ==>
                call_requires(run, (&self.app_search_service->Some_0, search, self.config.apps.search_limit)),
        ensures
            !self.config.apps.enable_search ==> fails_with(res, "Search Apps is disabled"@),
            self.config.apps.enable_search && self.app_search_service is None ==>
                fails_with(res, "Search Apps is disabled"@),
            self.config.apps.enable_search && self.app_search_service is Some ==>
                exists|out: Result<T, E>|
                    call_ensures(run, (&self.app_search_service->Some_0, search, self.config.apps.search_limit), out)
                    && #[trigger] answers(res, out, "Error searching apps"@),
    {
        if !self.config.apps.enable_search {
            return failed("Search Apps is disabled");
        }
        match &self.app_search_service {
            Some(service) => {
                let out = run(service, search, self.config.apps.search_limit);
                answer(out, "Error searching apps")
            },
            None => failed("Search Apps is disabled"),
        }
    }

    /// Lists the applications; `run` is the application search backend's
    /// `list_applications`, called with the application search limit.
    pub fn list_applications<T, E, C>(&self, run: C) -> (res: Result<T, ServiceError>)
        where C: FnOnce(&A, usize) -> Result<T, E>,
        requires
            self.config.apps.enable_search && self.app_search_service is Some ==>
                call_requires(run, (&self.app_search_service->Some_0, self.config.apps.search_limit)),
        ensures
            !self.config.apps.enable_search ==> fails_with(res, "Search Apps is disabled"@),
            self.config.apps.enable_search && self.app_search_service is None ==>
                fails_with(res, "Search Apps is disabled"@),
            self.config.apps.enable_search && self.app_search_service is Some ==>
                exists|out: Result<T, E>|
                    #[trigger] call_ensures(run, (&self.app_search_service->Some_0, self.config.apps.search_limit), out)
                    && answers(res, out, "Error listing apps"@),
    {
        if !self.config.apps.enable_search {
            return failed("Search Apps is disabled");
        }
        match &self.app_search_service {
            Some(service) => {
                let out = run(service, self.config.apps.search_limit);
                answer(out, "Error listing apps")
            },
            None => failed("Search Apps is disabled"),
        }
    }

    /// Searches the files for `search`; `run` is the file search backend's
    /// `search`, called with the file search limit.
    pub fn search_files<T, E, C>(&self, search: &str, run: C) -> (res: Result<T, ServiceError>)
        where C: FnOnce(&F, &str, usize) -> Result<T, E>,
        requires
            self.config.files.enable_search && self.file_search_service is Some ==>
                call_requires(run, (&self.file_search_service->Some_0, search, self.config.files.search_limit)),
        ensures
            search_files_refusal(self.config.files, self.file_search_service is Some) matches Some(m)
                ==> fails_with(res, m),
            search_files_refusal(self.config.files, self.file_search_service is Some) is None ==>
                exists|out: Result<T, E>|
                    #[trigger] call_ensures(run, (&self.file_search_service->Some_0, search, self.config.files.search_limit), out)
                    && answers(res, out, "Error searching files"@),
    {
        if !self.config.files.enable_search {
            return failed("Search Files option is disabled");
        }
        match &self.file_search_service {
            Some(service) => {
                let out = run(service, search, self.config.files.search_limit);
                answer(out, "Error searching files")
            },
            None => failed("Search Files is disabled"),
        }
    }

    /// Searches the application actions for `search`; `run` is the action
    /// backend's `search`. It is gated by the action settings but called with
    /// the application search limit.
    pub fn search_app_actions<T, E, C>(&self, search: &str, run: C) -> (res: Result<T, ServiceError>)
        where C: FnOnce(&X, &str, usize) -> Result<T, E>,
        requires
            self.config.app_actions.enable_search && self.app_actions_service is Some ==>
                call_requires(run, (&self.app_actions_service->Some_0, search, self.config.apps.search_limit)),
        ensures
            !self.config.app_actions.enable_search ==> fails_with(res, "Search App Action is disabled"@),
            self.config.app_actions.enable_search && self.app_actions_service is None ==>
                fails_with(res, "Search App Action is disabled"@),
            self.config.app_actions.enable_search && self.app_actions_service is Some ==>
                exists|out: Result<T, E>|
                    #[trigger] call_ensures(run, (&self.app_actions_service->Some_0, search, self.config.apps.search_limit), out)
                    && answers(res, out, "Error searching app actions"@),
    {
        if !self.config.app_actions.enable_search {
            return failed("Search App Action is disabled");
        }
        match &self.app_actions_service {
            Some(service) => {
                let out = run(service, search, self.config.apps.search_limit);
                answer(out, "Error searching app actions")
            },
            None => failed("Search App Action is disabled"),
        }
    }

    /// Registers `recent_app` as recently used; `run` is the application
    /// search backend's `register_recent_app`.
    pub fn register_recent_apps<M, E, C>(&mut self, recent_app: M, run: C) -> (res: Result<String, ServiceError>)
        where C: FnOnce(&mut A, M) -> Result<String, E>,
        requires
            old(self).config.apps.enable_search && old(self).app_search_service is Some ==>
                forall|a: &mut A| *a == old(self).app_search_service->Some_0 ==>
                    #[trigger] call_requires(run, (a, recent_app)),
        ensures
            final(self).config == old(self).config,
            !old(self).config.apps.enable_search ==> fails_with(res, "Search App is disabled"@),
            old(self).config.apps.enable_search && old(self).app_search_service is None ==>
                fails_with(res, "Search App Action is disabled"@),
            !(old(self).config.apps.enable_search && old(self).app_search_service is Some) ==>
                final(self).app_search_service == old(self).app_search_service,
            old(self).config.apps.enable_search && old(self).app_search_service is Some ==>
                exists|a: &mut A, out: Result<String, E>|
                    *a == old(self).app_search_service->Some_0
                    && #[trigger] call_ensures(run, (a, recent_app), out)
                    && final(self).app_search_service == Some(*final(a))
                    && answers(res, out, "Error searching app actions"@),
            final(self).file_search_service == old(self).file_search_service,
            final(self).app_actions_service == old(self).app_actions_service,
    {
        if !self.config.apps.enable_search {
            return failed("Search App is disabled");
        }
        match &mut self.app_search_service {
            Some(service) => {
                let out = run(service, recent_app);
                answer(out, "Error searching app actions")
            },
            None => failed("Search App Action is disabled"),
        }
    }
    /// Lists the recently used applications; `run` is the application
    /// search backend's `list_recent_apps`.
    pub fn list_recent_apps<T, E, C>(&self, run: C) -> (res: Result<T, ServiceError>)
        where C: FnOnce(&A) -> Result<T, E>,
        requires
            self.config.apps.enable_search && self.app_search_service is Some ==>
                call_requires(run, (&self.app_search_service->Some_0,)),
        ensures
            !self.config.apps.enable_search ==> fails_with(res, "Search App is disabled"@),
            self.config.apps.enable_search && self.app_search_service is None ==>
                fails_with(res, "Search App Action is disabled"@),
            self.config.apps.enable_search && self.app_search_service is Some ==>
                exists|out: Result<T, E>|
                    #[trigger] call_ensures(run, (&self.app_search_service->Some_0,), out)
                    && answers(res, out, "Error searching app actions"@),
    {
        if !self.config.apps.enable_search {
            return failed("Search App is disabled");
        }
        match &self.app_search_service {
            Some(service) => {
                let out = run(service);
                answer(out, "Error searching app actions")
            },
            None => failed("Search App Action is disabled"),
        }
    }
}

} // verus!
