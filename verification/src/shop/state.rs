//! ShopFlux page states, each with the path it is stored at.
use vstd::prelude::*;

verus! {

/// One saved address.
#[derive(Debug, Clone, PartialEq)]
pub struct AddressEntry {
    pub id: String,
    pub recipient_name: String,
    pub phone: String,
    pub full_address: String,
    pub is_default: bool,
}

/// The saved addresses.
pub struct AddressListState {
    pub items: Vec<AddressEntry>,
    pub loading: bool,
}

impl AddressListState {
    pub const PATH: &'static str = "address/list";
}

/// The login state.
pub struct AuthState {
    pub phase: AuthPhase,
    pub user_id: Option<String>,
    pub token: Option<String>,
    pub role: Option<String>,
    pub busy: bool,
    pub error: Option<String>,
}

impl AuthState {
    pub const PATH: &'static str = "auth/state";
}

/// Whether a user is logged in.
#[derive(Debug, Clone, PartialEq, Eq, Structural)]
pub enum AuthPhase {
    Unauthenticated,
    Authenticated,
}

/// One cart line.
#[derive(Debug, Clone, PartialEq)]
pub struct CartEntry {
    pub id: String,
    pub product_id: String,
    pub title: String,
    pub price: u64,
    pub image: Option<String>,
    pub quantity: u32,
}

/// The cart.
pub struct CartState {
    pub items: Vec<CartEntry>,
    pub total_amount: u64,
    pub loading: bool,
    pub error: Option<String>,
}

impl CartState {
    pub const PATH: &'static str = "cart/items";
}

/// One product category.
#[derive(Debug, Clone, PartialEq)]
pub struct CategoryItem {
    pub id: String,
    pub name: String,
    pub parent_id: Option<String>,
    pub sort_order: u32,
}

/// The product categories.
pub struct CategoriesState {
    pub items: Vec<CategoryItem>,
    pub loading: bool,
    pub error: Option<String>,
}

impl CategoriesState {
    pub const PATH: &'static str = "catalog/categories";
}

/// One product in a list.
#[derive(Debug, Clone, PartialEq)]
pub struct ProductItem {
    pub id: String,
    pub title: String,
    pub price: u64,
    pub image: Option<String>,
    pub rating: u32,
    pub shop_name: String,
}

/// The products of a category.
pub struct CatalogProductsState {
    pub category_id: String,
    pub items: Vec<ProductItem>,
    pub loading: bool,
    pub has_more: bool,
    pub error: Option<String>,
}

impl CatalogProductsState {
    pub const PATH: &'static str = "catalog/products";
}

/// One order in the order list.
#[derive(Debug, Clone, PartialEq)]
pub struct OrderSummary {
    pub id: String,
    pub shop_name: String,
    pub status: String,
    pub total_amount: u64,
    pub item_count: u32,
    pub created_at: String,
}

/// The order list.
pub struct OrderListState {
    pub items: Vec<OrderSummary>,
    pub loading: bool,
    pub has_more: bool,
    pub error: Option<String>,
}

impl OrderListState {
    pub const PATH: &'static str = "order/list";
}

/// One line of an order.
#[derive(Debug, Clone, PartialEq)]
pub struct OrderLineItem {
    pub product_id: String,
    pub title: String,
    pub price: u64,
    pub quantity: u32,
}

/// An order's detail.
pub struct OrderDetailState {
    pub id: String,
    pub shop_name: String,
    pub status: String,
    pub total_amount: u64,
    pub items: Vec<OrderLineItem>,
    pub shipping_address: String,
    pub paid_at: Option<String>,
    pub created_at: String,
    pub loading: bool,
}

impl OrderDetailState {
    pub const PATH: &'static str = "order/detail";
}

/// A product's detail.
pub struct ProductDetailState {
    pub id: String,
    pub title: String,
    pub description: Option<String>,
    pub price: u64,
    pub stock: u32,
    pub images: Vec<String>,
    pub rating: u32,
    pub review_count: u32,
    pub shop_id: String,
    pub shop_name: String,
    pub loading: bool,
}

impl ProductDetailState {
    pub const PATH: &'static str = "product/detail";
}

/// Product search results.
pub struct SearchResultsState {
    pub query: String,
    pub items: Vec<ProductItem>,
    pub loading: bool,
    pub error: Option<String>,
}

impl SearchResultsState {
    pub const PATH: &'static str = "search/results";
}

} // verus!
