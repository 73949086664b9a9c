//! The calls the ShopFlux BFF handlers make to the server's app API: the
//! method, the path under `/app/shop`, and the body of each. The handler
//! runner sends them, with the session's token as a bearer credential.
use vstd::prelude::*;
use crate::shop::records::PaginationParams;
use crate::shop::requests::{
    AddToCartReq, CreateOrderReq, LoadCategoryProductsReq, LoadOrderDetailReq,
    LoadProductDetailReq, PayOrderReq, SearchProductsReq, UpdateCartReq,
};
use crate::text::{concat2, concat3};

verus! {

/// The HTTP method of a call.
#[derive(PartialEq, Eq, Structural, Clone, Copy, Debug)]
pub enum HttpMethod {
    Get,
    Post,
    Put,
}

/// What a call sends as its JSON body.
pub enum CallBody {
    /// No body (a `GET`).
    Nothing,
    /// The empty JSON object `{}`.
    EmptyObject,
    /// A page of a list.
    Page(PaginationParams),
    /// A product search.
    Search { query: String },
    /// A quantity of a product to add to the cart.
    AddToCart { product_id: String, quantity: u32 },
    /// The new quantity of a cart item.
    UpdateCart { quantity: u32 },
    /// The cart items to order and the address to ship them to.
    CreateOrder { cart_item_ids: Vec<String>, address_id: String },
}

/// A call to the server's app API.
pub struct ServerCall {
    pub method: HttpMethod,
    /// The path under the app API's root.
    pub path: String,
    pub body: CallBody,
}

/// The root of the shop's app API on a server.
pub const APP_ROOT: &'static str = "/app/shop";

/// The URL of `path` of the app API on the server at `server_url`.
pub fn app_url(server_url: &str, path: &str) -> (r: String)
    ensures
        r@ == server_url@ + APP_ROOT@ + path@,
{
    let r = concat2(server_url, APP_ROOT);
    concat2(r.as_str(), path)
}

/// The value of the `authorization` header that carries `token`.
pub fn bearer_value(token: &str) -> (r: String)
    ensures
        r@ == "Bearer "@ + token@,
{
    concat2("Bearer ", token)
}

fn call(method: HttpMethod, path: String, body: CallBody) -> (c: ServerCall)
    ensures
        c.method == method,
        c.path == path,
        c.body == body,
{
    ServerCall { method, path, body }
}

/// Listing the categories.
pub open spec fn is_categories_call(c: ServerCall) -> bool {
    &&& (c.method == HttpMethod::Get)
    &&& (c.path@ == "/categories"@)
    &&& (c.body is Nothing)
}

/// Listing the categories.
pub fn categories_call() -> (c: ServerCall)
    ensures
        is_categories_call(c),
{
    call(HttpMethod::Get, "/categories".to_owned(), CallBody::Nothing)
}

/// Listing the first page of the products of the category `req` names.
pub open spec fn is_category_products_call(c: ServerCall, req: &LoadCategoryProductsReq) -> bool {
    &&& (c.method == HttpMethod::Post)
    &&& (c.path@ == "/categories/"@ + req.category_id@ + "/products"@)
    &&& (c.body matches CallBody::Page(p) && p.limit == 50 && p.offset == 0)
}

/// Listing the first page of the products of a category.
pub fn category_products_call(req: &LoadCategoryProductsReq) -> (c: ServerCall)
    ensures
        is_category_products_call(c, req),
{
    let path = concat3("/categories/", req.category_id.as_str(), "/products");
    call(HttpMethod::Post, path, CallBody::Page(PaginationParams::first_page()))
}

/// Fetching the product `req` names.
pub open spec fn is_product_detail_call(c: ServerCall, req: &LoadProductDetailReq) -> bool {
    &&& (c.method == HttpMethod::Get)
    &&& (c.path@ == "/products/"@ + req.product_id@)
    &&& (c.body is Nothing)
}

/// Fetching a product.
pub fn product_detail_call(req: &LoadProductDetailReq) -> (c: ServerCall)
    ensures
        is_product_detail_call(c, req),
{
    call(HttpMethod::Get, concat2("/products/", req.product_id.as_str()), CallBody::Nothing)
}

/// Searching the products for the query of `req`.
pub open spec fn is_search_call(c: ServerCall, req: &SearchProductsReq) -> bool {
    &&& (c.method == HttpMethod::Post)
    &&& (c.path@ == "/search"@)
    &&& (c.body matches CallBody::Search { query } && query@ == req.query@)
}

/// Searching the products (made only for a query that is not empty; see
/// `search_begin`).
pub fn search_call(req: &SearchProductsReq) -> (c: ServerCall)
    ensures
        is_search_call(c, req),
{
    call(HttpMethod::Post, "/search".to_owned(), CallBody::Search { query: req.query.clone() })
}

/// Fetching the cart.
pub open spec fn is_cart_call(c: ServerCall) -> bool {
    &&& (c.method == HttpMethod::Post)
    &&& (c.path@ == "/cart"@)
    &&& (c.body is EmptyObject)
}

/// Fetching the cart.
pub fn cart_call() -> (c: ServerCall)
    ensures
        is_cart_call(c),
{
    call(HttpMethod::Post, "/cart".to_owned(), CallBody::EmptyObject)
}

/// Adding to the cart what `req` names.
pub open spec fn is_add_to_cart_call(c: ServerCall, req: &AddToCartReq) -> bool {
    &&& (c.method == HttpMethod::Post)
    &&& (c.path@ == "/cart/add"@)
    &&& (c.body matches CallBody::AddToCart { product_id, quantity }
                && product_id@ == req.product_id@ && quantity == req.quantity)
}

/// Adding to the cart.
pub fn add_to_cart_call(req: &AddToCartReq) -> (c: ServerCall)
    ensures
        is_add_to_cart_call(c, req),
{
    call(
        HttpMethod::Post,
        "/cart/add".to_owned(),
        CallBody::AddToCart { product_id: req.product_id.clone(), quantity: req.quantity },
    )
}

/// Changing the cart item quantity `req` names.
pub open spec fn is_update_cart_call(c: ServerCall, req: &UpdateCartReq) -> bool {
    &&& (c.method == HttpMethod::Put)
    &&& (c.path@ == "/cart/"@ + req.item_id@)
    &&& (c.body matches CallBody::UpdateCart { quantity } && quantity == req.quantity)
}

/// Changing the quantity of a cart item.
pub fn update_cart_call(req: &UpdateCartReq) -> (c: ServerCall)
    ensures
        is_update_cart_call(c, req),
{
    call(
        HttpMethod::Put,
        concat2("/cart/", req.item_id.as_str()),
        CallBody::UpdateCart { quantity: req.quantity },
    )
}

fn copy_ids(v: &Vec<String>) -> (r: Vec<String>)
    ensures
        r@ == v@,
{
    let mut r: Vec<String> = Vec::new();
    let mut i: usize = 0;
    while i < v.len()
        invariant
            i <= v@.len(),
            r@ == v@.take(i as int),
        decreases v@.len() - i,
    {
        r.push(v[i].clone());
        assert(r@ =~= v@.take(i as int + 1));
        i = i + 1;
    }
    assert(v@.take(i as int) =~= v@);
    r
}

/// Placing the order `req` describes.
pub open spec fn is_create_order_call(c: ServerCall, req: &CreateOrderReq) -> bool {
    &&& (c.method == HttpMethod::Post)
    &&& (c.path@ == "/orders"@)
    &&& (c.body matches CallBody::CreateOrder { cart_item_ids, address_id }
                && cart_item_ids@ == req.cart_item_ids@ && address_id@ == req.address_id@)
}

/// Placing an order.
pub fn create_order_call(req: &CreateOrderReq) -> (c: ServerCall)
    ensures
        is_create_order_call(c, req),
{
    call(
        HttpMethod::Post,
        "/orders".to_owned(),
        CallBody::CreateOrder {
            cart_item_ids: copy_ids(&req.cart_item_ids),
            address_id: req.address_id.clone(),
        },
    )
}

/// Listing the first page of the orders.
pub open spec fn is_order_list_call(c: ServerCall) -> bool {
    &&& (c.method == HttpMethod::Post)
    &&& (c.path@ == "/orders/list"@)
    &&& (c.body matches CallBody::Page(p) && p.limit == 50 && p.offset == 0)
}

/// Listing the first page of the orders.
pub fn order_list_call() -> (c: ServerCall)
    ensures
        is_order_list_call(c),
{
    call(HttpMethod::Post, "/orders/list".to_owned(), CallBody::Page(PaginationParams::first_page()))
}

/// Fetching order `order_id`.
pub open spec fn is_order_detail_call(c: ServerCall, order_id: Seq<char>) -> bool {
    &&& (c.method == HttpMethod::Get)
    &&& (c.path@ == "/orders/"@ + order_id)
    &&& (c.body is Nothing)
}

/// Fetching an order (to show it, and again after it was paid).
pub fn order_detail_call(order_id: &str) -> (c: ServerCall)
    ensures
        is_order_detail_call(c, order_id@),
{
    call(HttpMethod::Get, concat2("/orders/", order_id), CallBody::Nothing)
}

/// Fetching the order `req` names.
pub open spec fn is_load_order_detail_call(c: ServerCall, req: &LoadOrderDetailReq) -> bool {
    &&& (c.method == HttpMethod::Get)
    &&& (c.path@ == "/orders/"@ + req.order_id@)
    &&& (c.body is Nothing)
}

/// Fetching the order a `LoadOrderDetailReq` names.
pub fn load_order_detail_call(req: &LoadOrderDetailReq) -> (c: ServerCall)
    ensures
        is_load_order_detail_call(c, req),
{
    order_detail_call(req.order_id.as_str())
}

/// Paying the order `req` names.
pub open spec fn is_pay_order_call(c: ServerCall, req: &PayOrderReq) -> bool {
    &&& (c.method == HttpMethod::Post)
    &&& (c.path@ == "/orders/"@ + req.order_id@ + "/pay"@)
    &&& (c.body is EmptyObject)
}

/// Paying an order.
pub fn pay_order_call(req: &PayOrderReq) -> (c: ServerCall)
    ensures
        is_pay_order_call(c, req),
{
    let path = concat3("/orders/", req.order_id.as_str(), "/pay");
    call(HttpMethod::Post, path, CallBody::EmptyObject)
}

/// Listing the saved addresses.
pub open spec fn is_addresses_call(c: ServerCall) -> bool {
    &&& (c.method == HttpMethod::Get)
    &&& (c.path@ == "/addresses"@)
    &&& (c.body is Nothing)
}

/// Listing the saved addresses.
pub fn addresses_call() -> (c: ServerCall)
    ensures
        is_addresses_call(c),
{
    call(HttpMethod::Get, "/addresses".to_owned(), CallBody::Nothing)
}

/// The route of each call to the app API, its method and path:
/// `GET /categories`, `POST /categories/{id}/products`,
/// `GET /products/{id}`, `POST /search`, `POST /cart`, `POST /cart/add`,
/// `PUT /cart/{item}`, `POST /orders`, `POST /orders/list`,
/// `GET /orders/{id}`, `POST /orders/{id}/pay` and `GET /addresses`.
pub proof fn law_call_routes()
    ensures
        forall|c: ServerCall| #[trigger]
            is_categories_call(c) ==> c.method == HttpMethod::Get && c.path@ == "/categories"@,
        forall|c: ServerCall, r: LoadCategoryProductsReq| #[trigger]
            is_category_products_call(c, &r) ==> c.method == HttpMethod::Post && c.path@
                == "/categories/"@ + r.category_id@ + "/products"@,
        forall|c: ServerCall, r: LoadProductDetailReq| #[trigger]
            is_product_detail_call(c, &r) ==> c.method == HttpMethod::Get && c.path@ == "/products/"@
                + r.product_id@,
        forall|c: ServerCall, r: SearchProductsReq| #[trigger]
            is_search_call(c, &r) ==> c.method == HttpMethod::Post && c.path@ == "/search"@,
        forall|c: ServerCall| #[trigger]
            is_cart_call(c) ==> c.method == HttpMethod::Post && c.path@ == "/cart"@,
        forall|c: ServerCall, r: AddToCartReq| #[trigger]
            is_add_to_cart_call(c, &r) ==> c.method == HttpMethod::Post && c.path@ == "/cart/add"@,
        forall|c: ServerCall, r: UpdateCartReq| #[trigger]
            is_update_cart_call(c, &r) ==> c.method == HttpMethod::Put && c.path@ == "/cart/"@
                + r.item_id@,
        forall|c: ServerCall, r: CreateOrderReq| #[trigger]
            is_create_order_call(c, &r) ==> c.method == HttpMethod::Post && c.path@ == "/orders"@,
        forall|c: ServerCall| #[trigger]
            is_order_list_call(c) ==> c.method == HttpMethod::Post && c.path@ == "/orders/list"@,
        forall|c: ServerCall, id: Seq<char>| #[trigger]
            is_order_detail_call(c, id) ==> c.method == HttpMethod::Get && c.path@ == "/orders/"@
                + id,
        forall|c: ServerCall, r: LoadOrderDetailReq| #[trigger]
            is_load_order_detail_call(c, &r) ==> c.method == HttpMethod::Get && c.path@
                == "/orders/"@ + r.order_id@,
        forall|c: ServerCall, r: PayOrderReq| #[trigger]
            is_pay_order_call(c, &r) ==> c.method == HttpMethod::Post && c.path@ == "/orders/"@
                + r.order_id@ + "/pay"@,
        forall|c: ServerCall| #[trigger]
            is_addresses_call(c) ==> c.method == HttpMethod::Get && c.path@ == "/addresses"@,
{
}

} // verus!
