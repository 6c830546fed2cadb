//! The route table: exact path to action, built once.
use vstd::prelude::*;

verus! {

pub const ROOT_PATH: &'static str = "/";
pub const AUDIO_PATH: &'static str = "/audio";
pub const VIZ_JS_PATH: &'static str = "/viz.js";
pub const INDEX_JS_PATH: &'static str = "/index.js";
pub const INDEX2_JS_PATH: &'static str = "/index2.js";
pub const INDEX_CSS_PATH: &'static str = "/index.css";

pub const TEXT_HTML: &'static str = "text/html";
pub const APPLICATION_JAVASCRIPT: &'static str = "application/javascript";
pub const TEXT_CSS: &'static str = "text/css";

/// What a route does.
#[derive(Debug, Clone)]
pub enum RouteAction {
    /// Answer with this content, under this content type.
    ServeAsset { content: Vec<u8>, content_type: String },
    /// Forward the uploaded audio to the worker.
    ForwardAudio,
}

/// A path and its action.
#[derive(Debug, Clone)]
pub struct Route {
    pub path: String,
    pub action: RouteAction,
}

#[derive(Debug, Clone, Copy, PartialEq, Eq)]
pub enum RouteError {
    /// Two routes name the same path.
    DuplicatePath,
}

/// No two routes share a path.
pub open spec fn paths_unique(rs: Seq<Route>) -> bool {
    forall|i: int, j: int|
        #![trigger rs[i], rs[j]]
        0 <= i < rs.len() && 0 <= j < rs.len() && i != j ==> rs[i].path@ != rs[j].path@
}

/// The action serves this content under this content type.
pub open spec fn serves(a: Option<RouteAction>, content: Seq<u8>, content_type: Seq<char>) -> bool {
    match a {
        Some(RouteAction::ServeAsset { content: c, content_type: t }) => c@ == content && t@ == content_type,
        _ => false,
    }
}

/// One of the six paths of the standard table.
pub open spec fn is_standard_path(p: Seq<char>) -> bool {
    p == ROOT_PATH@ || p == AUDIO_PATH@ || p == VIZ_JS_PATH@ || p == INDEX_JS_PATH@
        || p == INDEX2_JS_PATH@ || p == INDEX_CSS_PATH@
}

fn asset_route(path: &str, content: Vec<u8>, content_type: &str) -> (r: Route)
    ensures
        r.path@ == path@,
        serves(Some(r.action), content@, content_type@),
{
    Route {
        path: path.to_string(),
        action: RouteAction::ServeAsset { content, content_type: content_type.to_string() },
    }
}

/// The static content that the standard routes serve.
#[derive(Debug, Clone)]
pub struct StaticAssets {
    pub page: Vec<u8>,
    pub index_js: Vec<u8>,
    pub index2_js: Vec<u8>,
    pub viz_js: Vec<u8>,
    pub index_css: Vec<u8>,
}

/// Routes indexed by their exact path.
#[derive(Debug)]
pub struct RouteTable {
    routes: Vec<Route>,
}

impl RouteTable {
    pub closed spec fn entries(&self) -> Seq<Route> {
        self.routes@
    }

    #[verifier::type_invariant]
    pub open spec fn wf(&self) -> bool {
        paths_unique(self.entries())
    }

    /// Some route has exactly this path.
    pub open spec fn has_route(&self, path: Seq<char>) -> bool {
        exists|i: int| 0 <= i < self.entries().len() && #[trigger] self.entries()[i].path@ == path
    }

    /// The action of the route with exactly this path, if any.
    pub open spec fn route(&self, path: Seq<char>) -> Option<RouteAction> {
        if self.has_route(path) {
            Some(
                self.entries()[choose|i: int|
                    0 <= i < self.entries().len() && #[trigger] self.entries()[i].path@ == path].action,
            )
        } else {
            None
        }
    }

    /// The route at a position is the one that its path selects.
    pub proof fn lemma_route_at(&self, i: int)
        requires
            self.wf(),
            0 <= i < self.entries().len(),
        ensures
            self.route(self.entries()[i].path@) == Some(self.entries()[i].action),
    {
        let path = self.entries()[i].path@;
        assert(self.has_route(path));
        let k = choose|k: int| 0 <= k < self.entries().len() && #[trigger] self.entries()[k].path@ == path;
        if k != i {
            assert(self.entries()[k].path@ != self.entries()[i].path@);
        }
    }

    /// The six routes of the application: the page at the root, its scripts
    /// and style sheet, and the audio upload.
    pub fn standard(assets: StaticAssets) -> (r: RouteTable)
        ensures
            r.wf(),
            r.is_standard(assets),
    {
        let mut routes: Vec<Route> = Vec::new();
        routes.push(asset_route(ROOT_PATH, assets.page, TEXT_HTML));
        routes.push(asset_route(INDEX_JS_PATH, assets.index_js, APPLICATION_JAVASCRIPT));
        routes.push(asset_route(INDEX2_JS_PATH, assets.index2_js, APPLICATION_JAVASCRIPT));
        routes.push(asset_route(VIZ_JS_PATH, assets.viz_js, APPLICATION_JAVASCRIPT));
        routes.push(asset_route(INDEX_CSS_PATH, assets.index_css, TEXT_CSS));
        routes.push(Route { path: AUDIO_PATH.to_string(), action: RouteAction::ForwardAudio });
        proof {
            reveal_strlit("/");
            reveal_strlit("/audio");
            reveal_strlit("/viz.js");
            reveal_strlit("/index.js");
            reveal_strlit("/index2.js");
            reveal_strlit("/index.css");
            let e = routes@;
            assert(e.len() == 6);
            assert(e[0].path@ == ROOT_PATH@ && e[1].path@ == INDEX_JS_PATH@ && e[2].path@ == INDEX2_JS_PATH@);
            assert(e[3].path@ == VIZ_JS_PATH@ && e[4].path@ == INDEX_CSS_PATH@ && e[5].path@ == AUDIO_PATH@);
            assert(INDEX2_JS_PATH@[6] != INDEX_CSS_PATH@[6]);
            assert(INDEX2_JS_PATH@ != INDEX_CSS_PATH@);
            assert(INDEX_JS_PATH@.len() == 9 && VIZ_JS_PATH@.len() == 7 && AUDIO_PATH@.len() == 6);
            assert forall|i: int, j: int|
                #![trigger e[i], e[j]]
                0 <= i < e.len() && 0 <= j < e.len() && i != j implies e[i].path@ != e[j].path@ by {
                assert(e[i].path@.len() != e[j].path@.len() || e[i].path@ != e[j].path@);
            }
        }
        let t = RouteTable { routes };
        proof {
            t.lemma_route_at(0);
            t.lemma_route_at(1);
            t.lemma_route_at(2);
            t.lemma_route_at(3);
            t.lemma_route_at(4);
            t.lemma_route_at(5);
        }
        t
    }

    /// The table routes the six standard paths to these assets and to the
    /// audio upload, and no other path.
    pub open spec fn is_standard(&self, assets: StaticAssets) -> bool {
        &&& serves(self.route(ROOT_PATH@), assets.page@, TEXT_HTML@)
        &&& serves(self.route(INDEX_JS_PATH@), assets.index_js@, APPLICATION_JAVASCRIPT@)
        &&& serves(self.route(INDEX2_JS_PATH@), assets.index2_js@, APPLICATION_JAVASCRIPT@)
        &&& serves(self.route(VIZ_JS_PATH@), assets.viz_js@, APPLICATION_JAVASCRIPT@)
        &&& serves(self.route(INDEX_CSS_PATH@), assets.index_css@, TEXT_CSS@)
        &&& self.route(AUDIO_PATH@) == Some(RouteAction::ForwardAudio)
        &&& forall|p: Seq<char>| !is_standard_path(p) ==> #[trigger] self.route(p) is None
    }

    /// Builds a table from routes whose paths are distinct.
    pub fn new(routes: Vec<Route>) -> (r: Result<RouteTable, RouteError>)
        ensures
            match r {
                Ok(t) => t.wf() && t.entries() == routes@,
                Err(e) => !paths_unique(routes@) && e == RouteError::DuplicatePath,
            },
    {
        let n = routes.len();
        let mut i: usize = 0;
        while i < n
            invariant
                n == routes@.len(),
                i <= n,
                forall|a: int, b: int| 0 <= a < i && 0 <= b < n && a != b ==> routes@[a].path@ != routes@[b].path@,
            decreases n - i,
        {
            let mut j: usize = 0;
            while j < n
                invariant
                    n == routes@.len(),
                    i < n,
                    j <= n,
                    forall|a: int, b: int| 0 <= a < i && 0 <= b < n && a != b ==> routes@[a].path@ != routes@[b].path@,
                    forall|b: int| 0 <= b < j && b != i ==> routes@[i as int].path@ != routes@[b].path@,
                decreases n - j,
            {
                if j != i && routes[i].path == routes[j].path {
                    return Err(RouteError::DuplicatePath);
                }
                j = j + 1;
            }
            i = i + 1;
        }
        Ok(RouteTable { routes })
    }

    /// The action of the route with exactly this path: no wildcard, no
    /// trailing-slash folding.
    pub fn lookup(&self, path: &str) -> (r: Option<&RouteAction>)
        ensures
            match r {
                Some(a) => self.route(path@) == Some(*a),
                None => self.route(path@) is None,
            },
    {
        proof {
            use_type_invariant(self);
        }
        let wanted = path.to_string();
        let n = self.routes.len();
        let mut i: usize = 0;
        while i < n
            invariant
                self.wf(),
                wanted@ == path@,
                n == self.entries().len(),
                i <= n,
                forall|j: int| 0 <= j < i ==> self.entries()[j].path@ != path@,
            decreases n - i,
        {
            if self.routes[i].path == wanted {
                proof {
                    assert(self.entries()[i as int].path@ == path@);
                    let k = choose|k: int|
                        0 <= k < self.entries().len() && #[trigger] self.entries()[k].path@ == path@;
                    if k != i {
                        assert(self.entries()[k].path@ != self.entries()[i as int].path@);
                    }
                }
                return Some(&self.routes[i].action);
            }
            i = i + 1;
        }
        None
    }
}

} // verus!
