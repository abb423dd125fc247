use pigskit::route::{dispatch, is_route, route_table, Method, Route, RouteId};

fn segments(path: &str) -> Vec<String> {
    path.split('/').filter(|s| !s.is_empty()).map(|s| s.to_string()).collect()
}

#[test]
fn requests_reach_their_routes() {
    let table = route_table();
    assert_eq!(table.len(), 23);
    assert_eq!(dispatch(&table, Method::Get, &segments("/api/user/register")), Some(RouteId::RegisterRead));
    assert_eq!(dispatch(&table, Method::Patch, &segments("/api/user/register")), Some(RouteId::RegisterPatch));
    assert_eq!(dispatch(&table, Method::Post, &segments("/api/user/session")), Some(RouteId::SessionCreate));
    assert_eq!(dispatch(&table, Method::Get, &segments("/api/user/profile/avatar")), Some(RouteId::AvatarRead));
    assert_eq!(dispatch(&table, Method::Put, &segments("/api/cart")), Some(RouteId::CartPut));
    assert_eq!(dispatch(&table, Method::Delete, &segments("/fs/shop/product/image")), Some(RouteId::ImageDelete));
    assert_eq!(dispatch(&table, Method::Get, &segments("/api/shop/product/image")), Some(RouteId::ProductImageRead));
}

#[test]
fn unmatched_requests_reach_no_route() {
    let table = route_table();
    assert_eq!(dispatch(&table, Method::Get, &segments("/api/unknown")), None);
    assert_eq!(dispatch(&table, Method::Put, &segments("/api/user/register")), None);
    assert_eq!(dispatch(&table, Method::Other, &segments("/api/cart")), None);
    assert_eq!(dispatch(&table, Method::Post, &segments("/api/user/register/extra")), None);
    assert_eq!(dispatch(&table, Method::Options, &segments("/api/cart")), None);
}

#[test]
fn first_structural_match_wins() {
    let table = vec![
        Route { method: Method::Get, path: vec!["a"], id: RouteId::ShopCreate },
        Route { method: Method::Get, path: vec!["a"], id: RouteId::CartPut },
        Route { method: Method::Post, path: vec!["a"], id: RouteId::OrderCreate },
    ];
    assert_eq!(dispatch(&table, Method::Get, &segments("/a")), Some(RouteId::ShopCreate));
    assert!(is_route(&table, Method::Get, &segments("/a"), RouteId::ShopCreate));
    assert!(!is_route(&table, Method::Get, &segments("/a"), RouteId::CartPut));
    assert!(is_route(&table, Method::Post, &segments("/a"), RouteId::OrderCreate));
}
