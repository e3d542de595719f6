use api_gateway::router::{determine_target_service, TargetService};

#[test]
fn user_rule_wins_over_product_rule() {
    assert_eq!(
        determine_target_service("/api/products/user-123"),
        TargetService::UserService
    );
}

#[test]
fn product_paths_go_to_product_service() {
    assert_eq!(
        determine_target_service("/api/products"),
        TargetService::ProductService
    );
    assert_eq!(
        determine_target_service("/v2/product-list"),
        TargetService::ProductService
    );
}

#[test]
fn unknown_paths_fall_back_to_user_service() {
    assert_eq!(determine_target_service("/unknown"), TargetService::UserService);
    assert_eq!(determine_target_service(""), TargetService::UserService);
}

#[test]
fn user_paths_go_to_user_service() {
    assert_eq!(
        determine_target_service("/api/users/42"),
        TargetService::UserService
    );
    assert_eq!(
        determine_target_service("/profile/user"),
        TargetService::UserService
    );
}

#[test]
fn matching_is_case_sensitive() {
    assert_eq!(
        determine_target_service("/API/PRODUCTS"),
        TargetService::UserService
    );
    assert_eq!(
        determine_target_service("/Product"),
        TargetService::UserService
    );
}

#[test]
fn backends_have_fixed_ports_and_names() {
    assert_eq!(TargetService::UserService.port(), 8080);
    assert_eq!(TargetService::ProductService.port(), 8081);
    assert_eq!(TargetService::UserService.name(), "User Service");
    assert_eq!(TargetService::ProductService.name(), "Product Service");
}
