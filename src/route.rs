use vstd::prelude::*;

verus! {

/// The request methods that routes are declared for.
#[derive(Clone, Copy, Debug, PartialEq, Eq, Structural)]
pub enum Method {
    Get,
    Post,
    Put,
    Patch,
    Delete,
    Options,
    /// Any method that no route is declared for.
    Other,
}

/// The endpoints of the server.
#[derive(Clone, Copy, Debug, PartialEq, Eq, Structural)]
pub enum RouteId {
    RegisterRead,
    RegisterCreate,
    RegisterPatch,
    SessionCreate,
    SessionRead,
    SessionDelete,
    ProfilePatch,
    AvatarRead,
    ShopCreate,
    MemberCreate,
    AuthorityUpdate,
    ProductCreate,
    ProductDelete,
    ProductPatch,
    ProductImageRead,
    CartPut,
    CartItemCreate,
    CartItemUpdate,
    CartItemDelete,
    OrderCreate,
    ImageUpdate,
    ImageRead,
    ImageDelete,
}

/// A route: the method and the exact path segments it answers.
#[derive(Debug)]
pub struct Route {
    pub method: Method,
    pub path: Vec<&'static str>,
    pub id: RouteId,
}

pub open spec fn path_matches(pattern: Seq<&str>, segments: Seq<String>) -> bool {
    &&& pattern.len() == segments.len()
    &&& forall|k: int| 0 <= k < pattern.len() ==> (#[trigger] pattern[k])@ == segments[k]@
}

pub open spec fn route_matches(r: Route, method: Method, segments: Seq<String>) -> bool {
    r.method == method && path_matches(r.path@, segments)
}

/// The first route, from index `from` on, whose method and path match.
pub open spec fn first_route(table: Seq<Route>, method: Method, segments: Seq<String>, from: int) -> Option<int>
    decreases table.len() - from,
{
    if from < 0 || from >= table.len() {
        None
    } else if route_matches(table[from], method, segments) {
        Some(from)
    } else {
        first_route(table, method, segments, from + 1)
    }
}

pub open spec fn dispatch_model(table: Seq<Route>, method: Method, segments: Seq<String>) -> Option<RouteId> {
    match first_route(table, method, segments, 0) {
        Some(i) => Some(table[i].id),
        None => None,
    }
}

fn segment_matches(pattern: &str, segment: &String) -> (r: bool)
    ensures
        r == (pattern@ == segment@),
{
    let p: String = pattern.to_owned();
    p == *segment
}

fn path_matches_exec(pattern: &Vec<&'static str>, segments: &Vec<String>) -> (r: bool)
    ensures
        r == path_matches(pattern@, segments@),
{
    if pattern.len() != segments.len() {
        return false;
    }
    let mut k: usize = 0;
    while k < pattern.len()
        invariant
            pattern@.len() == segments@.len(),
            k <= pattern@.len(),
            forall|j: int| 0 <= j < k ==> (#[trigger] pattern@[j])@ == segments@[j]@,
        decreases pattern@.len() - k,
    {
        if !segment_matches(pattern[k], &segments[k]) {
            return false;
        }
        k = k + 1;
    }
    true
}

proof fn lemma_first_route_skip(table: Seq<Route>, method: Method, segments: Seq<String>, i: int)
    requires
        0 <= i <= table.len(),
        forall|k: int| 0 <= k < i ==> !route_matches(#[trigger] table[k], method, segments),
    ensures
        first_route(table, method, segments, 0) == first_route(table, method, segments, i),
    decreases i,
{
    if i > 0 {
        lemma_first_route_skip(table, method, segments, i - 1);
    }
}

/// The route that answers a request: the first in the table, in the order
/// written, whose method and path match; none where no route matches.
pub fn dispatch(table: &Vec<Route>, method: Method, segments: &Vec<String>) -> (r: Option<RouteId>)
    ensures
        r == dispatch_model(table@, method, segments@),
{
    let mut i: usize = 0;
    while i < table.len()
        invariant
            i <= table@.len(),
            forall|k: int| 0 <= k < i ==> !route_matches(#[trigger] table@[k], method, segments@),
        decreases table@.len() - i,
    {
        if table[i].method == method && path_matches_exec(&table[i].path, segments) {
            proof {
                lemma_first_route_skip(table@, method, segments@, i as int);
            }
            return Some(table[i].id);
        }
        i = i + 1;
    }
    proof {
        lemma_first_route_skip(table@, method, segments@, i as int);
    }
    None
}

/// Whether `id` is the route that answers the request: a branch commits to a
/// request only where it is the first structural match.
pub fn is_route(table: &Vec<Route>, method: Method, segments: &Vec<String>, id: RouteId) -> (r: bool)
    ensures
        r == (dispatch_model(table@, method, segments@) == Some(id)),
{
    match dispatch(table, method, segments) {
        Some(found) => found == id,
        None => false,
    }
}

/// A route that matches commits the request to it when no route before it
/// matches, whatever the routes after it would say.
pub proof fn lemma_first_match_commits(table: Seq<Route>, method: Method, segments: Seq<String>, i: int)
    requires
        0 <= i < table.len(),
        route_matches(table[i], method, segments),
        forall|k: int| 0 <= k < i ==> !route_matches(#[trigger] table[k], method, segments),
    ensures
        dispatch_model(table, method, segments) == Some(table[i].id),
{
    lemma_first_route_skip(table, method, segments, i);
}

/// A request that no route matches is answered by none.
pub proof fn lemma_no_match_no_route(table: Seq<Route>, method: Method, segments: Seq<String>)
    requires
        forall|k: int| 0 <= k < table.len() ==> !route_matches(#[trigger] table[k], method, segments),
    ensures
        dispatch_model(table, method, segments) is None,
{
    lemma_first_route_skip(table, method, segments, table.len() as int);
}

pub open spec fn route_is(r: Route, method: Method, path: Seq<Seq<char>>, id: RouteId) -> bool {
    &&& r.method == method
    &&& r.id == id
    &&& r.path@.len() == path.len()
    &&& forall|k: int| 0 <= k < path.len() ==> (#[trigger] r.path@[k])@ == path[k]
}

fn route(method: Method, path: Vec<&'static str>, id: RouteId) -> (r: Route)
    ensures
        r.method == method,
        r.path@ == path@,
        r.id == id,
{
    Route { method, path, id }
}

/// The server's endpoints, in the order they are tried.
pub fn route_table() -> (r: Vec<Route>)
    ensures
        r@.len() == 23,
        route_is(r@[0], Method::Get, seq!["api"@, "user"@, "register"@], RouteId::RegisterRead),
        route_is(r@[1], Method::Post, seq!["api"@, "user"@, "register"@], RouteId::RegisterCreate),
        route_is(r@[2], Method::Patch, seq!["api"@, "user"@, "register"@], RouteId::RegisterPatch),
        route_is(r@[3], Method::Post, seq!["api"@, "user"@, "session"@], RouteId::SessionCreate),
        route_is(r@[4], Method::Get, seq!["api"@, "user"@, "session"@], RouteId::SessionRead),
        route_is(r@[5], Method::Delete, seq!["api"@, "user"@, "session"@], RouteId::SessionDelete),
        route_is(r@[6], Method::Patch, seq!["api"@, "user"@, "profile"@], RouteId::ProfilePatch),
        route_is(r@[7], Method::Get, seq!["api"@, "user"@, "profile"@, "avatar"@], RouteId::AvatarRead),
        route_is(r@[8], Method::Post, seq!["api"@, "shop"@], RouteId::ShopCreate),
        route_is(r@[9], Method::Post, seq!["api"@, "shop"@, "member"@], RouteId::MemberCreate),
        route_is(r@[10], Method::Patch, seq!["api"@, "shop"@, "member"@, "authority"@], RouteId::AuthorityUpdate),
        route_is(r@[11], Method::Post, seq!["api"@, "shop"@, "product"@], RouteId::ProductCreate),
        route_is(r@[12], Method::Delete, seq!["api"@, "shop"@, "product"@], RouteId::ProductDelete),
        route_is(r@[13], Method::Patch, seq!["api"@, "shop"@, "product"@], RouteId::ProductPatch),
        route_is(r@[14], Method::Get, seq!["api"@, "shop"@, "product"@, "image"@], RouteId::ProductImageRead),
        route_is(r@[15], Method::Put, seq!["api"@, "cart"@], RouteId::CartPut),
        route_is(r@[16], Method::Post, seq!["api"@, "cart"@, "item"@], RouteId::CartItemCreate),
        route_is(r@[17], Method::Patch, seq!["api"@, "cart"@, "item"@], RouteId::CartItemUpdate),
        route_is(r@[18], Method::Delete, seq!["api"@, "cart"@, "item"@], RouteId::CartItemDelete),
        route_is(r@[19], Method::Post, seq!["api"@, "cart"@, "order"@], RouteId::OrderCreate),
        route_is(r@[20], Method::Post, seq!["fs"@, "shop"@, "product"@, "image"@], RouteId::ImageUpdate),
        route_is(r@[21], Method::Get, seq!["fs"@, "shop"@, "product"@, "image"@], RouteId::ImageRead),
        route_is(r@[22], Method::Delete, seq!["fs"@, "shop"@, "product"@, "image"@], RouteId::ImageDelete),
{
    let mut t: Vec<Route> = Vec::new();
    t.push(route(Method::Get, vec!["api", "user", "register"], RouteId::RegisterRead));
    t.push(route(Method::Post, vec!["api", "user", "register"], RouteId::RegisterCreate));
    t.push(route(Method::Patch, vec!["api", "user", "register"], RouteId::RegisterPatch));
    t.push(route(Method::Post, vec!["api", "user", "session"], RouteId::SessionCreate));
    t.push(route(Method::Get, vec!["api", "user", "session"], RouteId::SessionRead));
    t.push(route(Method::Delete, vec!["api", "user", "session"], RouteId::SessionDelete));
    t.push(route(Method::Patch, vec!["api", "user", "profile"], RouteId::ProfilePatch));
    t.push(route(Method::Get, vec!["api", "user", "profile", "avatar"], RouteId::AvatarRead));
    t.push(route(Method::Post, vec!["api", "shop"], RouteId::ShopCreate));
    t.push(route(Method::Post, vec!["api", "shop", "member"], RouteId::MemberCreate));
    t.push(route(Method::Patch, vec!["api", "shop", "member", "authority"], RouteId::AuthorityUpdate));
    t.push(route(Method::Post, vec!["api", "shop", "product"], RouteId::ProductCreate));
    t.push(route(Method::Delete, vec!["api", "shop", "product"], RouteId::ProductDelete));
    t.push(route(Method::Patch, vec!["api", "shop", "product"], RouteId::ProductPatch));
    t.push(route(Method::Get, vec!["api", "shop", "product", "image"], RouteId::ProductImageRead));
    t.push(route(Method::Put, vec!["api", "cart"], RouteId::CartPut));
    t.push(route(Method::Post, vec!["api", "cart", "item"], RouteId::CartItemCreate));
    t.push(route(Method::Patch, vec!["api", "cart", "item"], RouteId::CartItemUpdate));
    t.push(route(Method::Delete, vec!["api", "cart", "item"], RouteId::CartItemDelete));
    t.push(route(Method::Post, vec!["api", "cart", "order"], RouteId::OrderCreate));
    t.push(route(Method::Post, vec!["fs", "shop", "product", "image"], RouteId::ImageUpdate));
    t.push(route(Method::Get, vec!["fs", "shop", "product", "image"], RouteId::ImageRead));
    t.push(route(Method::Delete, vec!["fs", "shop", "product", "image"], RouteId::ImageDelete));
    t
}

} // verus!
