//! Errors of the user and product services, their texts and the JSON-RPC
//! error codes they are reported under.

use crate::text::{decimal, push_decimal};
use vstd::prelude::*;
use vstd::string::StringExecFns;

verus! {

/// The JSON-RPC error codes that the services report.
#[derive(Debug, Clone, Copy, PartialEq, Eq, Structural)]
pub enum RpcErrorCode {
    /// The caller's parameters are at fault.
    InvalidParams,
    /// The service is at fault.
    InternalError,
}

impl RpcErrorCode {
    /// The number of the code in JSON-RPC 2.0.
    pub open spec fn spec_code(&self) -> i32 {
        match self {
            RpcErrorCode::InvalidParams => -32602i32,
            RpcErrorCode::InternalError => -32603i32,
        }
    }

    /// The number of the code in JSON-RPC 2.0.
    #[verifier::when_used_as_spec(spec_code)]
    pub fn code(&self) -> (n: i32)
        ensures
            n == self.spec_code(),
    {
        match self {
            RpcErrorCode::InvalidParams => -32602,
            RpcErrorCode::InternalError => -32603,
        }
    }
}

/// What can go wrong in the user service. The store's and other inner
/// errors are held as their texts.
#[derive(Debug)]
pub enum UserServiceError {
    Database(String),
    UserNotFound { id: String },
    InvalidEmail { email: String },
    UserAlreadyExists { email: String },
    Validation { message: String },
    Internal(String),
}

/// The mathematical form of a `UserServiceError`.
pub ghost enum UserErrorView {
    Database(Seq<char>),
    UserNotFound { id: Seq<char> },
    InvalidEmail { email: Seq<char> },
    UserAlreadyExists { email: Seq<char> },
    Validation { message: Seq<char> },
    Internal(Seq<char>),
}

impl DeepView for UserServiceError {
    type V = UserErrorView;

    open spec fn deep_view(&self) -> UserErrorView {
        match self {
            UserServiceError::Database(e) => UserErrorView::Database(e@),
            UserServiceError::UserNotFound { id } => UserErrorView::UserNotFound { id: id@ },
            UserServiceError::InvalidEmail { email } => UserErrorView::InvalidEmail {
                email: email@,
            },
            UserServiceError::UserAlreadyExists { email } => UserErrorView::UserAlreadyExists {
                email: email@,
            },
            UserServiceError::Validation { message } => UserErrorView::Validation {
                message: message@,
            },
            UserServiceError::Internal(e) => UserErrorView::Internal(e@),
        }
    }
}

/// The text of a user service error.
pub open spec fn user_error_text(e: UserErrorView) -> Seq<char> {
    match e {
        UserErrorView::Database(inner) => "Database error: "@ + inner,
        UserErrorView::UserNotFound { id } => "User not found with id: "@ + id,
        UserErrorView::InvalidEmail { email } => "Invalid email format: "@ + email,
        UserErrorView::UserAlreadyExists { email } => "User already exists with email: "@ + email,
        UserErrorView::Validation { message } => "Validation error: "@ + message,
        UserErrorView::Internal(inner) => "Internal server error: "@ + inner,
    }
}

/// The code of a user service error: the caller's faults are invalid
/// parameters, the store's and inner errors are internal errors.
pub open spec fn user_error_code(e: UserErrorView) -> RpcErrorCode {
    match e {
        UserErrorView::Database(_) => RpcErrorCode::InternalError,
        UserErrorView::Internal(_) => RpcErrorCode::InternalError,
        _ => RpcErrorCode::InvalidParams,
    }
}

impl UserServiceError {
    /// The error as text.
    pub fn message(&self) -> (text: String)
        ensures
            text@ == user_error_text(self.deep_view()),
    {
        match self {
            UserServiceError::Database(inner) => {
                let mut text = String::from_str("Database error: ");
                text.append(inner.as_str());
                text
            },
            UserServiceError::UserNotFound { id } => {
                let mut text = String::from_str("User not found with id: ");
                text.append(id.as_str());
                text
            },
            UserServiceError::InvalidEmail { email } => {
                let mut text = String::from_str("Invalid email format: ");
                text.append(email.as_str());
                text
            },
            UserServiceError::UserAlreadyExists { email } => {
                let mut text = String::from_str("User already exists with email: ");
                text.append(email.as_str());
                text
            },
            UserServiceError::Validation { message } => {
                let mut text = String::from_str("Validation error: ");
                text.append(message.as_str());
                text
            },
            UserServiceError::Internal(inner) => {
                let mut text = String::from_str("Internal server error: ");
                text.append(inner.as_str());
                text
            },
        }
    }

    /// The JSON-RPC code that the error is reported under.
    pub fn error_code(&self) -> (code: RpcErrorCode)
        ensures
            code == user_error_code(self.deep_view()),
    {
        match self {
            UserServiceError::UserNotFound { .. } => RpcErrorCode::InvalidParams,
            UserServiceError::InvalidEmail { .. } => RpcErrorCode::InvalidParams,
            UserServiceError::UserAlreadyExists { .. } => RpcErrorCode::InvalidParams,
            UserServiceError::Validation { .. } => RpcErrorCode::InvalidParams,
            _ => RpcErrorCode::InternalError,
        }
    }
}

/// What can go wrong in the product service. The store's and other inner
/// errors are held as their texts, and a refused price as it was written.
#[derive(Debug)]
pub enum ProductServiceError {
    Database(String),
    ProductNotFound { id: String },
    InvalidPrice { price: String },
    ProductAlreadyExists { name: String },
    InsufficientStock { id: String, available: i32, requested: i32 },
    Validation { message: String },
    Internal(String),
}

/// The mathematical form of a `ProductServiceError`.
pub ghost enum ProductErrorView {
    Database(Seq<char>),
    ProductNotFound { id: Seq<char> },
    InvalidPrice { price: Seq<char> },
    ProductAlreadyExists { name: Seq<char> },
    InsufficientStock { id: Seq<char>, available: i32, requested: i32 },
    Validation { message: Seq<char> },
    Internal(Seq<char>),
}

impl DeepView for ProductServiceError {
    type V = ProductErrorView;

    open spec fn deep_view(&self) -> ProductErrorView {
        match self {
            ProductServiceError::Database(e) => ProductErrorView::Database(e@),
            ProductServiceError::ProductNotFound { id } => ProductErrorView::ProductNotFound {
                id: id@,
            },
            ProductServiceError::InvalidPrice { price } => ProductErrorView::InvalidPrice {
                price: price@,
            },
            ProductServiceError::ProductAlreadyExists { name } => {
                ProductErrorView::ProductAlreadyExists { name: name@ }
            },
            ProductServiceError::InsufficientStock { id, available, requested } => {
                ProductErrorView::InsufficientStock {
                    id: id@,
                    available: *available,
                    requested: *requested,
                }
            },
            ProductServiceError::Validation { message } => ProductErrorView::Validation {
                message: message@,
            },
            ProductServiceError::Internal(e) => ProductErrorView::Internal(e@),
        }
    }
}

/// The decimal numeral of a signed number, with `-` before a negative one.
pub open spec fn signed_decimal(n: int) -> Seq<char> {
    if n < 0 {
        seq!['-'] + decimal((-n) as nat)
    } else {
        decimal(n as nat)
    }
}

/// The text of a product service error.
pub open spec fn product_error_text(e: ProductErrorView) -> Seq<char> {
    match e {
        ProductErrorView::Database(inner) => "Database error: "@ + inner,
        ProductErrorView::ProductNotFound { id } => "Product not found with id: "@ + id,
        ProductErrorView::InvalidPrice { price } => "Invalid price: "@ + price
            + ". Price must be greater than 0"@,
        ProductErrorView::ProductAlreadyExists { name } => "Product already exists with name: "@
            + name,
        ProductErrorView::InsufficientStock { id, available, requested } => {
            "Insufficient stock for product "@ + id + ". Available: "@ + signed_decimal(
                available as int,
            ) + ", Requested: "@ + signed_decimal(requested as int)
        },
        ProductErrorView::Validation { message } => "Validation error: "@ + message,
        ProductErrorView::Internal(inner) => "Internal server error: "@ + inner,
    }
}

/// The code of a product service error: the caller's faults are invalid
/// parameters, the store's and inner errors are internal errors.
pub open spec fn product_error_code(e: ProductErrorView) -> RpcErrorCode {
    match e {
        ProductErrorView::Database(_) => RpcErrorCode::InternalError,
        ProductErrorView::Internal(_) => RpcErrorCode::InternalError,
        _ => RpcErrorCode::InvalidParams,
    }
}

/// Appends the decimal numeral of `n` to `out`.
pub fn push_signed_decimal(out: &mut String, n: i32)
    ensures
        final(out)@ == old(out)@ + signed_decimal(n as int),
{
    if n < 0 {
        out.append("-");
        let magnitude: u128 = (-(n as i64)) as u128;
        push_decimal(out, magnitude);
        proof {
            reveal_strlit("-");
            assert(out@ =~= old(out)@ + signed_decimal(n as int));
        }
    } else {
        push_decimal(out, n as u128);
    }
}

impl ProductServiceError {
    /// The error as text.
    pub fn message(&self) -> (text: String)
        ensures
            text@ == product_error_text(self.deep_view()),
    {
        match self {
            ProductServiceError::Database(inner) => {
                let mut text = String::from_str("Database error: ");
                text.append(inner.as_str());
                text
            },
            ProductServiceError::ProductNotFound { id } => {
                let mut text = String::from_str("Product not found with id: ");
                text.append(id.as_str());
                text
            },
            ProductServiceError::InvalidPrice { price } => {
                let mut text = String::from_str("Invalid price: ");
                text.append(price.as_str());
                text.append(". Price must be greater than 0");
                text
            },
            ProductServiceError::ProductAlreadyExists { name } => {
                let mut text = String::from_str("Product already exists with name: ");
                text.append(name.as_str());
                text
            },
            ProductServiceError::InsufficientStock { id, available, requested } => {
                let mut text = String::from_str("Insufficient stock for product ");
                text.append(id.as_str());
                text.append(". Available: ");
                push_signed_decimal(&mut text, *available);
                text.append(", Requested: ");
                push_signed_decimal(&mut text, *requested);
                text
            },
            ProductServiceError::Validation { message } => {
                let mut text = String::from_str("Validation error: ");
                text.append(message.as_str());
                text
            },
            ProductServiceError::Internal(inner) => {
                let mut text = String::from_str("Internal server error: ");
                text.append(inner.as_str());
                text
            },
        }
    }

    /// The JSON-RPC code that the error is reported under.
    pub fn error_code(&self) -> (code: RpcErrorCode)
        ensures
            code == product_error_code(self.deep_view()),
    {
        match self {
            ProductServiceError::ProductNotFound { .. } => RpcErrorCode::InvalidParams,
            ProductServiceError::InvalidPrice { .. } => RpcErrorCode::InvalidParams,
            ProductServiceError::ProductAlreadyExists { .. } => RpcErrorCode::InvalidParams,
            ProductServiceError::InsufficientStock { .. } => RpcErrorCode::InvalidParams,
            ProductServiceError::Validation { .. } => RpcErrorCode::InvalidParams,
            _ => RpcErrorCode::InternalError,
        }
    }
}

} // verus!
