use api_gateway::errors::{ProductServiceError, RpcErrorCode, UserServiceError};
use api_gateway::models::{
    CreateProductResponse, CreateUserRequest, CreateUserResponse, GetProductRequest,
    GetProductsByCategoryRequest, GetUserRequest, UpdateProductStockRequest,
};
use api_gateway::services::{
    ensure_new_product, ensure_new_user, product_rpc_failure, user_rpc_failure,
    validate_category_request,
    validate_create_product_request, validate_create_user_request, validate_get_product_request,
    validate_get_user_request, validate_update_stock_request,
};

fn user(name: &str, email: &str) -> CreateUserRequest {
    CreateUserRequest { name: name.to_string(), email: email.to_string() }
}

fn user_message(r: Result<(), UserServiceError>) -> String {
    r.unwrap_err().message()
}

fn product_message(r: Result<(), ProductServiceError>) -> String {
    r.unwrap_err().message()
}

#[test]
fn good_user_request_passes() {
    assert!(validate_create_user_request(&user("Ada", "ada@example.org")).is_ok());
    assert!(validate_create_user_request(&user(" Ada ", "a@b.c")).is_ok());
}

#[test]
fn blank_name_is_refused_first() {
    let r = validate_create_user_request(&user("  \t", ""));
    assert!(matches!(r, Err(UserServiceError::Validation { .. })));
    assert_eq!(user_message(r), "Validation error: Name cannot be empty");
}

#[test]
fn blank_email_is_refused() {
    let r = validate_create_user_request(&user("Ada", " \n"));
    assert_eq!(user_message(r), "Validation error: Email cannot be empty");
}

#[test]
fn email_needs_at_sign_and_dot() {
    for email in ["ada.example.org", "ada@example", "ada"] {
        match validate_create_user_request(&user("Ada", email)) {
            Err(UserServiceError::InvalidEmail { email: e }) => assert_eq!(e, email),
            other => panic!("{:?}", other),
        }
    }
    let r = validate_create_user_request(&user("Ada", "nope"));
    assert_eq!(user_message(r), "Invalid email format: nope");
}

#[test]
fn blank_user_id_is_refused() {
    let r = validate_get_user_request(&GetUserRequest { id: String::from(" ") });
    assert_eq!(user_message(r), "Validation error: User ID cannot be empty");
    assert!(validate_get_user_request(&GetUserRequest { id: String::from("u1") }).is_ok());
}

#[test]
fn good_product_request_passes() {
    assert!(validate_create_product_request("Mug", "A mug", true, "4.5", "kitchen", 0).is_ok());
}

#[test]
fn product_checks_come_in_order() {
    let r = validate_create_product_request(" ", " ", false, "-1", " ", -1);
    assert_eq!(product_message(r), "Validation error: Product name cannot be empty");
    let r = validate_create_product_request("Mug", " ", false, "-1", " ", -1);
    assert_eq!(
        product_message(r),
        "Validation error: Product description cannot be empty"
    );
    let r = validate_create_product_request("Mug", "A mug", false, "-1", " ", -1);
    assert_eq!(
        product_message(r),
        "Invalid price: -1. Price must be greater than 0"
    );
    let r = validate_create_product_request("Mug", "A mug", true, "1", " ", -1);
    assert_eq!(
        product_message(r),
        "Validation error: Product category cannot be empty"
    );
    let r = validate_create_product_request("Mug", "A mug", true, "1", "kitchen", -1);
    assert_eq!(
        product_message(r),
        "Validation error: Stock quantity cannot be negative"
    );
}

#[test]
fn product_lookups_need_an_id_or_a_category() {
    let r = validate_get_product_request(&GetProductRequest { id: String::new() });
    assert_eq!(product_message(r), "Validation error: Product ID cannot be empty");
    assert!(validate_get_product_request(&GetProductRequest { id: String::from("p") }).is_ok());
    let r = validate_category_request(&GetProductsByCategoryRequest {
        category: String::from("\t"),
    });
    assert_eq!(product_message(r), "Validation error: Category cannot be empty");
    assert!(validate_category_request(&GetProductsByCategoryRequest {
        category: String::from("kitchen"),
    })
    .is_ok());
}

#[test]
fn stock_updates_need_an_id_and_a_quantity_from_zero() {
    let req = |id: &str, quantity: i32| UpdateProductStockRequest { id: id.to_string(), quantity };
    assert!(validate_update_stock_request(&req("p1", 0)).is_ok());
    assert!(validate_update_stock_request(&req("p1", i32::MAX)).is_ok());
    assert_eq!(
        product_message(validate_update_stock_request(&req(" ", -1))),
        "Validation error: Product ID cannot be empty"
    );
    assert_eq!(
        product_message(validate_update_stock_request(&req("p1", -1))),
        "Validation error: Stock quantity cannot be negative"
    );
}

#[test]
fn user_error_texts() {
    assert_eq!(
        UserServiceError::Database(String::from("down")).message(),
        "Database error: down"
    );
    assert_eq!(
        UserServiceError::UserNotFound { id: String::from("7") }.message(),
        "User not found with id: 7"
    );
    assert_eq!(
        UserServiceError::UserAlreadyExists { email: String::from("a@b.c") }.message(),
        "User already exists with email: a@b.c"
    );
    assert_eq!(
        UserServiceError::Internal(String::from("boom")).message(),
        "Internal server error: boom"
    );
}

#[test]
fn product_error_texts() {
    assert_eq!(
        ProductServiceError::Database(String::from("down")).message(),
        "Database error: down"
    );
    assert_eq!(
        ProductServiceError::ProductNotFound { id: String::from("7") }.message(),
        "Product not found with id: 7"
    );
    assert_eq!(
        ProductServiceError::ProductAlreadyExists { name: String::from("Mug") }.message(),
        "Product already exists with name: Mug"
    );
    assert_eq!(
        ProductServiceError::InsufficientStock {
            id: String::from("p1"),
            available: 3,
            requested: 10,
        }
        .message(),
        "Insufficient stock for product p1. Available: 3, Requested: 10"
    );
    assert_eq!(
        ProductServiceError::InsufficientStock {
            id: String::from("p1"),
            available: i32::MIN,
            requested: -5,
        }
        .message(),
        "Insufficient stock for product p1. Available: -2147483648, Requested: -5"
    );
    assert_eq!(
        ProductServiceError::Internal(String::from("boom")).message(),
        "Internal server error: boom"
    );
}

#[test]
fn callers_faults_are_invalid_params() {
    assert_eq!(
        UserServiceError::UserNotFound { id: String::new() }.error_code(),
        RpcErrorCode::InvalidParams
    );
    assert_eq!(
        UserServiceError::InvalidEmail { email: String::new() }.error_code(),
        RpcErrorCode::InvalidParams
    );
    assert_eq!(
        UserServiceError::UserAlreadyExists { email: String::new() }.error_code(),
        RpcErrorCode::InvalidParams
    );
    assert_eq!(
        UserServiceError::Validation { message: String::new() }.error_code(),
        RpcErrorCode::InvalidParams
    );
    assert_eq!(
        ProductServiceError::InvalidPrice { price: String::new() }.error_code(),
        RpcErrorCode::InvalidParams
    );
    assert_eq!(
        ProductServiceError::InsufficientStock { id: String::new(), available: 0, requested: 1 }
            .error_code(),
        RpcErrorCode::InvalidParams
    );
}

#[test]
fn inner_faults_are_internal_errors() {
    assert_eq!(
        UserServiceError::Database(String::new()).error_code(),
        RpcErrorCode::InternalError
    );
    assert_eq!(
        UserServiceError::Internal(String::new()).error_code(),
        RpcErrorCode::InternalError
    );
    assert_eq!(
        ProductServiceError::Database(String::new()).error_code(),
        RpcErrorCode::InternalError
    );
    assert_eq!(
        ProductServiceError::Internal(String::new()).error_code(),
        RpcErrorCode::InternalError
    );
}

#[test]
fn error_codes_have_their_json_rpc_numbers() {
    assert_eq!(RpcErrorCode::InvalidParams.code(), -32602);
    assert_eq!(RpcErrorCode::InternalError.code(), -32603);
}

#[test]
fn failures_are_reported_as_internal_errors() {
    let e = UserServiceError::UserNotFound { id: String::from("9") };
    let f = user_rpc_failure("Failed to get user", &e);
    assert_eq!(f.code, -32603);
    assert_eq!(f.message, "Failed to get user");
    assert_eq!(f.data, "User not found with id: 9");
    let e = ProductServiceError::Validation { message: String::from("m") };
    let f = product_rpc_failure("Failed to create product", &e);
    assert_eq!(f.code, -32603);
    assert_eq!(f.message, "Failed to create product");
    assert_eq!(f.data, "Validation error: m");
}

#[test]
fn creation_reports() {
    let r = CreateUserResponse::created("user:abc");
    assert_eq!(r.id, "user:abc");
    assert_eq!(r.message, "User created successfully with id: user:abc");
    let r = CreateProductResponse::created("product:1");
    assert_eq!(r.id, "product:1");
    assert_eq!(r.message, "Product created successfully with id: product:1");
}

#[test]
fn stored_duplicates_are_refused() {
    assert!(ensure_new_user(0, "a@b.c").is_ok());
    assert_eq!(
        ensure_new_user(1, "a@b.c").unwrap_err().message(),
        "User already exists with email: a@b.c"
    );
    assert!(ensure_new_product(0, "Mug").is_ok());
    assert_eq!(
        ensure_new_product(2, "Mug").unwrap_err().message(),
        "Product already exists with name: Mug"
    );
}
