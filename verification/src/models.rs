//! Requests and responses of the user and product services.

use vstd::prelude::*;
use vstd::string::StringExecFns;

verus! {

/// Asks for a new user.
#[derive(Debug, Clone)]
pub struct CreateUserRequest {
    pub name: String,
    pub email: String,
}

/// Reports a new user.
#[derive(Debug, Clone)]
pub struct CreateUserResponse {
    pub id: String,
    pub message: String,
}

/// Asks for one user.
#[derive(Debug, Clone)]
pub struct GetUserRequest {
    pub id: String,
}

/// Reports a new product.
#[derive(Debug, Clone)]
pub struct CreateProductResponse {
    pub id: String,
    pub message: String,
}

/// Asks for one product.
#[derive(Debug, Clone)]
pub struct GetProductRequest {
    pub id: String,
}

/// Asks for a product's stock to be set.
#[derive(Debug, Clone)]
pub struct UpdateProductStockRequest {
    pub id: String,
    pub quantity: i32,
}

/// Asks for the products of one category.
#[derive(Debug, Clone)]
pub struct GetProductsByCategoryRequest {
    pub category: String,
}

impl CreateUserResponse {
    /// The report on the user stored under `id`.
    pub fn created(id: &str) -> (response: CreateUserResponse)
        ensures
            response.id@ == id@,
            response.message@ == "User created successfully with id: "@ + id@,
    {
        let mut message = String::from_str("User created successfully with id: ");
        message.append(id);
        CreateUserResponse { id: String::from_str(id), message }
    }
}

impl CreateProductResponse {
    /// The report on the product stored under `id`.
    pub fn created(id: &str) -> (response: CreateProductResponse)
        ensures
            response.id@ == id@,
            response.message@ == "Product created successfully with id: "@ + id@,
    {
        let mut message = String::from_str("Product created successfully with id: ");
        message.append(id);
        CreateProductResponse { id: String::from_str(id), message }
    }
}

} // verus!
