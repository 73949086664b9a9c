//! The records the ShopFlux server's app API answers with, as the BFF
//! handlers read them.
use vstd::prelude::*;

verus! {

/// A product.
pub struct AppProduct {
    pub id: String,
    pub title: String,
    pub description: Option<String>,
    pub price: u64,
    pub stock: u32,
    pub images: Vec<String>,
    pub rating: u32,
    pub review_count: u32,
    pub shop_id: String,
    pub shop_name: String,
}

/// A product category.
pub struct AppCategory {
    pub id: String,
    pub name: String,
    pub parent_id: Option<String>,
    pub sort_order: u32,
}

/// A page of products.
pub struct ProductListResponse {
    pub items: Vec<AppProduct>,
    pub has_more: bool,
}

/// One cart line.
pub struct AppCartItem {
    pub id: String,
    pub product_id: String,
    pub title: String,
    pub price: u64,
    pub image: Option<String>,
    pub quantity: u32,
}

/// The cart.
pub struct CartResponse {
    pub items: Vec<AppCartItem>,
    pub total_amount: u64,
}

/// One line of an order.
pub struct AppOrderItem {
    pub product_id: String,
    pub title: String,
    pub price: u64,
    pub quantity: u32,
}

/// An order with its lines.
pub struct AppOrderDetail {
    pub id: String,
    pub shop_name: String,
    pub status: String,
    pub total_amount: u64,
    pub items: Vec<AppOrderItem>,
    pub shipping_address: String,
    pub paid_at: Option<String>,
    pub created_at: String,
}

/// An order in a list.
pub struct AppOrderSummary {
    pub id: String,
    pub shop_name: String,
    pub status: String,
    pub total_amount: u64,
    pub item_count: u32,
    pub created_at: String,
}

/// A page of orders.
pub struct OrderListResponse {
    pub items: Vec<AppOrderSummary>,
    pub has_more: bool,
}

/// A saved address.
pub struct AppAddress {
    pub id: String,
    pub recipient_name: String,
    pub phone: String,
    pub province: String,
    pub city: String,
    pub district: String,
    pub detail: String,
    pub is_default: bool,
}

/// The result of paying an order.
pub struct PaymentResponse {
    pub success: bool,
}

/// A successful login: the access token and the user it belongs to.
pub struct LoginResponse {
    pub access_token: String,
    pub user_id: String,
    pub role: String,
}

/// Which page of a list to fetch.
pub struct PaginationParams {
    pub limit: u32,
    pub offset: u32,
}

impl PaginationParams {
    /// The page the handlers fetch: the first 50 entries.
    pub fn first_page() -> (p: Self)
        ensures
            p.limit == 50,
            p.offset == 0,
    {
        PaginationParams { limit: 50, offset: 0 }
    }
}

} // verus!
