//! ShopFlux requests, each with the path it is emitted at.
use vstd::prelude::*;

verus! {

/// Load the saved addresses.
pub struct LoadAddressListReq;

impl LoadAddressListReq {
    pub const PATH: &'static str = "address/load";
}

/// Log in with username and password.
pub struct LoginReq {
    pub username: String,
    pub password: String,
}

impl LoginReq {
    pub const PATH: &'static str = "auth/login";
}

/// Log out.
pub struct LogoutReq;

impl LogoutReq {
    pub const PATH: &'static str = "auth/logout";
}

/// Load the cart.
pub struct LoadCartReq;

impl LoadCartReq {
    pub const PATH: &'static str = "cart/load";
}

/// Add a quantity of a product to the cart.
pub struct AddToCartReq {
    pub product_id: String,
    pub quantity: u32,
}

impl AddToCartReq {
    pub const PATH: &'static str = "cart/add";
}

/// Change the quantity of a cart item.
pub struct UpdateCartReq {
    pub item_id: String,
    pub quantity: u32,
}

impl UpdateCartReq {
    pub const PATH: &'static str = "cart/update";
}

/// Load the product categories.
pub struct LoadCategoriesReq;

impl LoadCategoriesReq {
    pub const PATH: &'static str = "catalog/load_categories";
}

/// Load the products of a category.
pub struct LoadCategoryProductsReq {
    pub category_id: String,
}

impl LoadCategoryProductsReq {
    pub const PATH: &'static str = "catalog/load_products";
}

/// Load a product's detail.
pub struct LoadProductDetailReq {
    pub product_id: String,
}

impl LoadProductDetailReq {
    pub const PATH: &'static str = "product/load_detail";
}

/// Place an order for cart items, shipped to an address.
pub struct CreateOrderReq {
    pub cart_item_ids: Vec<String>,
    pub address_id: String,
}

impl CreateOrderReq {
    pub const PATH: &'static str = "order/create";
}

/// Load the order list.
pub struct LoadOrderListReq;

impl LoadOrderListReq {
    pub const PATH: &'static str = "order/load_list";
}

/// Load an order's detail.
pub struct LoadOrderDetailReq {
    pub order_id: String,
}

impl LoadOrderDetailReq {
    pub const PATH: &'static str = "order/load_detail";
}

/// Pay an order.
pub struct PayOrderReq {
    pub order_id: String,
}

impl PayOrderReq {
    pub const PATH: &'static str = "order/pay";
}

/// Search products.
pub struct SearchProductsReq {
    pub query: String,
}

impl SearchProductsReq {
    pub const PATH: &'static str = "search/products";
}

} // verus!
