//! The checks that the user and product services make on a request before
//! they touch the store.

use crate::errors::{
    product_error_text, user_error_text, ProductErrorView, ProductServiceError, RpcErrorCode,
    UserErrorView, UserServiceError,
};
use crate::models::{
    CreateUserRequest, GetProductRequest, GetProductsByCategoryRequest, GetUserRequest,
    UpdateProductStockRequest,
};
use crate::text::{contains_char, is_blank, is_blank_text};
use vstd::prelude::*;
use vstd::string::StringExecFns;

verus! {

/// What is wrong with a request for a new user, if anything. The checks are
/// made in this order: the name is not blank, the e-mail address is not
/// blank, the address holds both `@` and `.`.
pub open spec fn create_user_fault(name: Seq<char>, email: Seq<char>) -> Option<UserErrorView> {
    if is_blank_text(name) {
        Some(UserErrorView::Validation { message: "Name cannot be empty"@ })
    } else if is_blank_text(email) {
        Some(UserErrorView::Validation { message: "Email cannot be empty"@ })
    } else if !email.contains('@') || !email.contains('.') {
        Some(UserErrorView::InvalidEmail { email })
    } else {
        None
    }
}

/// What is wrong with a request for one user, if anything: a blank id.
pub open spec fn get_user_fault(id: Seq<char>) -> Option<UserErrorView> {
    if is_blank_text(id) {
        Some(UserErrorView::Validation { message: "User ID cannot be empty"@ })
    } else {
        None
    }
}

/// The error of a check's result, if it has one.
pub open spec fn user_fault_of(result: Result<(), UserServiceError>) -> Option<UserErrorView> {
    match result {
        Ok(_) => None,
        Err(e) => Some(e.deep_view()),
    }
}

/// The error of a check's result, if it has one.
pub open spec fn product_fault_of(result: Result<(), ProductServiceError>) -> Option<
    ProductErrorView,
> {
    match result {
        Ok(_) => None,
        Err(e) => Some(e.deep_view()),
    }
}

fn user_validation(message: &str) -> (e: UserServiceError)
    ensures
        e.deep_view() == (UserErrorView::Validation { message: message@ }),
{
    UserServiceError::Validation { message: String::from_str(message) }
}

fn product_validation(message: &str) -> (e: ProductServiceError)
    ensures
        e.deep_view() == (ProductErrorView::Validation { message: message@ }),
{
    ProductServiceError::Validation { message: String::from_str(message) }
}

/// Checks a request for a new user.
pub fn validate_create_user_request(request: &CreateUserRequest) -> (result: Result<
    (),
    UserServiceError,
>)
    ensures
        user_fault_of(result) == create_user_fault(request.name@, request.email@),
{
    if is_blank(request.name.as_str()) {
        return Err(user_validation("Name cannot be empty"));
    }
    if is_blank(request.email.as_str()) {
        return Err(user_validation("Email cannot be empty"));
    }
    if !contains_char(request.email.as_str(), '@') || !contains_char(request.email.as_str(), '.') {
        return Err(UserServiceError::InvalidEmail { email: request.email.clone() });
    }
    Ok(())
}

/// Checks a request for one user.
pub fn validate_get_user_request(request: &GetUserRequest) -> (result: Result<
    (),
    UserServiceError,
>)
    ensures
        user_fault_of(result) == get_user_fault(request.id@),
{
    if is_blank(request.id.as_str()) {
        return Err(user_validation("User ID cannot be empty"));
    }
    Ok(())
}

/// What is wrong with a request for a new product, if anything. The checks
/// are made in this order: the name is not blank, the description is not
/// blank, the price is greater than zero, the category is not blank, the
/// stock is not negative. `price_text` is the price as it is reported in the
/// error.
pub open spec fn create_product_fault(
    name: Seq<char>,
    description: Seq<char>,
    price_is_positive: bool,
    price_text: Seq<char>,
    category: Seq<char>,
    stock_quantity: i32,
) -> Option<ProductErrorView> {
    if is_blank_text(name) {
        Some(ProductErrorView::Validation { message: "Product name cannot be empty"@ })
    } else if is_blank_text(description) {
        Some(ProductErrorView::Validation { message: "Product description cannot be empty"@ })
    } else if !price_is_positive {
        Some(ProductErrorView::InvalidPrice { price: price_text })
    } else if is_blank_text(category) {
        Some(ProductErrorView::Validation { message: "Product category cannot be empty"@ })
    } else if stock_quantity < 0 {
        Some(ProductErrorView::Validation { message: "Stock quantity cannot be negative"@ })
    } else {
        None
    }
}

/// What is wrong with a request for one product, if anything: a blank id.
pub open spec fn get_product_fault(id: Seq<char>) -> Option<ProductErrorView> {
    if is_blank_text(id) {
        Some(ProductErrorView::Validation { message: "Product ID cannot be empty"@ })
    } else {
        None
    }
}

/// What is wrong with a request for a category's products, if anything: a
/// blank category.
pub open spec fn category_fault(category: Seq<char>) -> Option<ProductErrorView> {
    if is_blank_text(category) {
        Some(ProductErrorView::Validation { message: "Category cannot be empty"@ })
    } else {
        None
    }
}

/// What is wrong with a request to set a product's stock, if anything: a
/// blank id, or else a negative quantity.
pub open spec fn update_stock_fault(id: Seq<char>, quantity: i32) -> Option<ProductErrorView> {
    if is_blank_text(id) {
        Some(ProductErrorView::Validation { message: "Product ID cannot be empty"@ })
    } else if quantity < 0 {
        Some(ProductErrorView::Validation { message: "Stock quantity cannot be negative"@ })
    } else {
        None
    }
}

/// Checks the parts of a request for a new product. The price comes as the
/// answer to whether it is greater than zero, and as the text to report it
/// by.
pub fn validate_create_product_request(
    name: &str,
    description: &str,
    price_is_positive: bool,
    price_text: &str,
    category: &str,
    stock_quantity: i32,
) -> (result: Result<(), ProductServiceError>)
    ensures
        product_fault_of(result) == create_product_fault(
            name@,
            description@,
            price_is_positive,
            price_text@,
            category@,
            stock_quantity,
        ),
{
    if is_blank(name) {
        return Err(product_validation("Product name cannot be empty"));
    }
    if is_blank(description) {
        return Err(product_validation("Product description cannot be empty"));
    }
    if !price_is_positive {
        return Err(ProductServiceError::InvalidPrice { price: String::from_str(price_text) });
    }
    if is_blank(category) {
        return Err(product_validation("Product category cannot be empty"));
    }
    if stock_quantity < 0 {
        return Err(product_validation("Stock quantity cannot be negative"));
    }
    Ok(())
}

/// Checks a request for one product.
pub fn validate_get_product_request(request: &GetProductRequest) -> (result: Result<
    (),
    ProductServiceError,
>)
    ensures
        product_fault_of(result) == get_product_fault(request.id@),
{
    if is_blank(request.id.as_str()) {
        return Err(product_validation("Product ID cannot be empty"));
    }
    Ok(())
}

/// Checks a request for the products of one category.
pub fn validate_category_request(request: &GetProductsByCategoryRequest) -> (result: Result<
    (),
    ProductServiceError,
>)
    ensures
        product_fault_of(result) == category_fault(request.category@),
{
    if is_blank(request.category.as_str()) {
        return Err(product_validation("Category cannot be empty"));
    }
    Ok(())
}

/// Checks a request to set a product's stock.
pub fn validate_update_stock_request(request: &UpdateProductStockRequest) -> (result: Result<
    (),
    ProductServiceError,
>)
    ensures
        product_fault_of(result) == update_stock_fault(request.id@, request.quantity),
{
    if is_blank(request.id.as_str()) {
        return Err(product_validation("Product ID cannot be empty"));
    }
    if request.quantity < 0 {
        return Err(product_validation("Stock quantity cannot be negative"));
    }
    Ok(())
}

/// What stands against storing a user with this e-mail address, if
/// anything: a stored user that has it already.
pub open spec fn new_user_fault(stored_with_email: usize, email: Seq<char>) -> Option<UserErrorView> {
    if stored_with_email > 0 {
        Some(UserErrorView::UserAlreadyExists { email })
    } else {
        None
    }
}

/// What stands against storing a product of this name, if anything: a
/// stored product that has it already.
pub open spec fn new_product_fault(stored_with_name: usize, name: Seq<char>) -> Option<
    ProductErrorView,
> {
    if stored_with_name > 0 {
        Some(ProductErrorView::ProductAlreadyExists { name })
    } else {
        None
    }
}

/// Refuses a new user whose e-mail address `stored_with_email` stored users
/// have.
pub fn ensure_new_user(stored_with_email: usize, email: &str) -> (result: Result<
    (),
    UserServiceError,
>)
    ensures
        user_fault_of(result) == new_user_fault(stored_with_email, email@),
{
    if stored_with_email > 0 {
        return Err(UserServiceError::UserAlreadyExists { email: String::from_str(email) });
    }
    Ok(())
}

/// Refuses a new product whose name `stored_with_name` stored products have.
pub fn ensure_new_product(stored_with_name: usize, name: &str) -> (result: Result<
    (),
    ProductServiceError,
>)
    ensures
        product_fault_of(result) == new_product_fault(stored_with_name, name@),
{
    if stored_with_name > 0 {
        return Err(ProductServiceError::ProductAlreadyExists { name: String::from_str(name) });
    }
    Ok(())
}

/// An error as a JSON-RPC server reports it: a code, a message and the
/// error's text as data.
#[derive(Debug)]
pub struct RpcFailure {
    pub code: i32,
    pub message: String,
    pub data: String,
}

/// Reports a failed operation of the user service. Whatever the error, the
/// report goes out as an internal error; the error's text is its data.
pub fn user_rpc_failure(message: &str, error: &UserServiceError) -> (failure: RpcFailure)
    ensures
        failure.code == RpcErrorCode::InternalError.spec_code(),
        failure.message@ == message@,
        failure.data@ == user_error_text(error.deep_view()),
{
    RpcFailure {
        code: RpcErrorCode::InternalError.code(),
        message: String::from_str(message),
        data: error.message(),
    }
}

/// Reports a failed operation of the product service. Whatever the error,
/// the report goes out as an internal error; the error's text is its data.
pub fn product_rpc_failure(message: &str, error: &ProductServiceError) -> (failure: RpcFailure)
    ensures
        failure.code == RpcErrorCode::InternalError.spec_code(),
        failure.message@ == message@,
        failure.data@ == product_error_text(error.deep_view()),
{
    RpcFailure {
        code: RpcErrorCode::InternalError.code(),
        message: String::from_str(message),
        data: error.message(),
    }
}

} // verus!
