//! The state transitions of the ShopFlux BFF handlers. Each handler shows
//! a loading state, asks the server, and turns the answer into the page
//! state; these functions compute those states, and the handler runner
//! does the asking and storing.
use vstd::prelude::*;
use crate::shop::records::{
    AppAddress, AppCartItem, AppCategory, AppOrderDetail, AppOrderItem, AppOrderSummary,
    AppProduct, CartResponse, LoginResponse, OrderListResponse, PaymentResponse,
    ProductListResponse,
};
use crate::shop::state::{
    AddressEntry, AddressListState, AuthPhase, AuthState, CartEntry, CartState,
    CatalogProductsState, CategoriesState, CategoryItem, OrderDetailState, OrderLineItem,
    OrderListState, OrderSummary, ProductDetailState, ProductItem, SearchResultsState,
};
use crate::text::{concat5, concat2};

verus! {

fn copy_opt(o: &Option<String>) -> (r: Option<String>)
    ensures
        r == *o,
{
    match o {
        Some(s) => Some(s.clone()),
        None => None,
    }
}

fn copy_strings(v: &Vec<String>) -> (r: Vec<String>)
    ensures
        r@ == v@,
{
    let mut r: Vec<String> = Vec::new();
    let mut i: usize = 0;
    while i < v.len()
        invariant
            i <= v@.len(),
            r@ == v@.take(i as int),
        decreases v@.len() - i,
    {
        r.push(v[i].clone());
        assert(r@ =~= v@.take(i as int + 1));
        i = i + 1;
    }
    assert(v@.take(i as int) =~= v@);
    r
}

/// The list entry of a product: its first image, if any, as the picture.
pub open spec fn product_item_of(p: AppProduct) -> ProductItem {
    ProductItem {
        id: p.id,
        title: p.title,
        price: p.price,
        image: if p.images@.len() > 0 {
            Some(p.images@[0])
        } else {
            None
        },
        rating: p.rating,
        shop_name: p.shop_name,
    }
}

/// The cart entry of a cart line.
pub open spec fn cart_entry_of(i: AppCartItem) -> CartEntry {
    CartEntry {
        id: i.id,
        product_id: i.product_id,
        title: i.title,
        price: i.price,
        image: i.image,
        quantity: i.quantity,
    }
}

/// The category entry of a category.
pub open spec fn category_item_of(c: AppCategory) -> CategoryItem {
    CategoryItem { id: c.id, name: c.name, parent_id: c.parent_id, sort_order: c.sort_order }
}

/// The line of an order detail.
pub open spec fn order_line_of(i: AppOrderItem) -> OrderLineItem {
    OrderLineItem { product_id: i.product_id, title: i.title, price: i.price, quantity: i.quantity }
}

/// The list entry of an order.
pub open spec fn order_summary_of(o: AppOrderSummary) -> OrderSummary {
    OrderSummary {
        id: o.id,
        shop_name: o.shop_name,
        status: o.status,
        total_amount: o.total_amount,
        item_count: o.item_count,
        created_at: o.created_at,
    }
}

/// `e` is the entry shown for address `a`: its full address is province,
/// city and district run together, a space, and the street detail.
pub open spec fn address_entry_of(a: AppAddress, e: AddressEntry) -> bool {
    &&& e.id == a.id
    &&& e.recipient_name == a.recipient_name
    &&& e.phone == a.phone
    &&& e.full_address@ == a.province@ + a.city@ + a.district@ + " "@ + a.detail@
    &&& e.is_default == a.is_default
}

/// The list entry of a product.
pub fn to_product_item(p: &AppProduct) -> (r: ProductItem)
    ensures
        r == product_item_of(*p),
{
    let image = if p.images.len() > 0 {
        Some(p.images[0].clone())
    } else {
        None
    };
    ProductItem {
        id: p.id.clone(),
        title: p.title.clone(),
        price: p.price,
        image,
        rating: p.rating,
        shop_name: p.shop_name.clone(),
    }
}

fn product_items(v: &Vec<AppProduct>) -> (r: Vec<ProductItem>)
    ensures
        r@ == v@.map_values(|p: AppProduct| product_item_of(p)),
{
    let mut r: Vec<ProductItem> = Vec::new();
    let mut i: usize = 0;
    while i < v.len()
        invariant
            i <= v@.len(),
            r@ == v@.take(i as int).map_values(|p: AppProduct| product_item_of(p)),
        decreases v@.len() - i,
    {
        r.push(to_product_item(&v[i]));
        assert(r@ =~= v@.take(i as int + 1).map_values(|p: AppProduct| product_item_of(p)));
        i = i + 1;
    }
    assert(v@.take(i as int) =~= v@);
    r
}

fn cart_entries(v: &Vec<AppCartItem>) -> (r: Vec<CartEntry>)
    ensures
        r@ == v@.map_values(|c: AppCartItem| cart_entry_of(c)),
{
    let mut r: Vec<CartEntry> = Vec::new();
    let mut i: usize = 0;
    while i < v.len()
        invariant
            i <= v@.len(),
            r@ == v@.take(i as int).map_values(|c: AppCartItem| cart_entry_of(c)),
        decreases v@.len() - i,
    {
        let c = &v[i];
        r.push(
            CartEntry {
                id: c.id.clone(),
                product_id: c.product_id.clone(),
                title: c.title.clone(),
                price: c.price,
                image: copy_opt(&c.image),
                quantity: c.quantity,
            },
        );
        assert(r@ =~= v@.take(i as int + 1).map_values(|c: AppCartItem| cart_entry_of(c)));
        i = i + 1;
    }
    assert(v@.take(i as int) =~= v@);
    r
}

fn order_lines(v: &Vec<AppOrderItem>) -> (r: Vec<OrderLineItem>)
    ensures
        r@ == v@.map_values(|o: AppOrderItem| order_line_of(o)),
{
    let mut r: Vec<OrderLineItem> = Vec::new();
    let mut i: usize = 0;
    while i < v.len()
        invariant
            i <= v@.len(),
            r@ == v@.take(i as int).map_values(|o: AppOrderItem| order_line_of(o)),
        decreases v@.len() - i,
    {
        let o = &v[i];
        r.push(
            OrderLineItem {
                product_id: o.product_id.clone(),
                title: o.title.clone(),
                price: o.price,
                quantity: o.quantity,
            },
        );
        assert(r@ =~= v@.take(i as int + 1).map_values(|o: AppOrderItem| order_line_of(o)));
        i = i + 1;
    }
    assert(v@.take(i as int) =~= v@);
    r
}

/// The login state while a login is under way.
pub open spec fn pending_login(s: AuthState) -> bool {
    &&& (s.phase == AuthPhase::Unauthenticated)
    &&& (s.user_id is None)
    &&& (s.token is None)
    &&& (s.role is None)
    &&& (s.busy)
    &&& (s.error is None)
}

/// The login state while a login is under way.
pub fn login_pending() -> (s: AuthState)
    ensures
        pending_login(s),
{
    AuthState {
        phase: AuthPhase::Unauthenticated,
        user_id: None,
        token: None,
        role: None,
        busy: true,
        error: None,
    }
}

/// The login state after the server accepted a login with answer `resp`.
pub open spec fn logged_in_as(s: AuthState, resp: &LoginResponse) -> bool {
    &&& (s.phase == AuthPhase::Authenticated)
    &&& (s.user_id == Some(resp.user_id))
    &&& (s.token == Some(resp.access_token))
    &&& (s.role == Some(resp.role))
    &&& (!s.busy)
    &&& (s.error is None)
}

/// The login state after the server accepted the login.
pub fn login_succeeded(resp: &LoginResponse) -> (s: AuthState)
    ensures
        logged_in_as(s, resp),
{
    AuthState {
        phase: AuthPhase::Authenticated,
        user_id: Some(resp.user_id.clone()),
        token: Some(resp.access_token.clone()),
        role: Some(resp.role.clone()),
        busy: false,
        error: None,
    }
}

/// The login state after the server refused the login of `username`.
pub open spec fn login_refused(s: AuthState, username: Seq<char>) -> bool {
    &&& (s.phase == AuthPhase::Unauthenticated)
    &&& (s.user_id is None)
    &&& (s.token is None)
    &&& (s.role is None)
    &&& (!s.busy)
    &&& (s.error matches Some(e) && e@ == "Login failed for '"@ + username + "'"@)
}

/// The login state after the server refused the login of `username`.
pub fn login_failed(username: &str) -> (s: AuthState)
    ensures
        login_refused(s, username@),
{
    let msg = concat2("Login failed for '", username);
    let msg = concat2(msg.as_str(), "'");
    AuthState {
        phase: AuthPhase::Unauthenticated,
        user_id: None,
        token: None,
        role: None,
        busy: false,
        error: Some(msg),
    }
}

/// The states logging out drops: the cart and the order list.
pub fn cleared_on_logout() -> (r: Vec<&'static str>)
    ensures
        r@ == seq![CartState::PATH, OrderListState::PATH],
{
    let mut r: Vec<&'static str> = Vec::new();
    r.push(CartState::PATH);
    r.push(OrderListState::PATH);
    assert(r@ =~= seq![CartState::PATH, OrderListState::PATH]);
    r
}

/// The login state after logging out.
pub open spec fn logged_out_state(s: AuthState) -> bool {
    &&& (s.phase == AuthPhase::Unauthenticated)
    &&& (s.user_id is None)
    &&& (s.token is None)
    &&& (s.role is None)
    &&& (!s.busy)
    &&& (s.error is None)
}

/// The login state after logging out.
pub fn logged_out() -> (s: AuthState)
    ensures
        logged_out_state(s),
{
    AuthState {
        phase: AuthPhase::Unauthenticated,
        user_id: None,
        token: None,
        role: None,
        busy: false,
        error: None,
    }
}

/// The categories while they load.
pub open spec fn categories_loading_state(s: CategoriesState) -> bool {
    &&& (s.items@.len() == 0)
    &&& (s.loading)
    &&& (s.error is None)
}

/// The categories while they load.
pub fn categories_loading() -> (s: CategoriesState)
    ensures
        categories_loading_state(s),
{
    CategoriesState { items: Vec::new(), loading: true, error: None }
}

/// The categories `cats` the server listed.
pub open spec fn categories_listed(s: CategoriesState, cats: &Vec<AppCategory>) -> bool {
    &&& (s.items@ == cats@.map_values(|c: AppCategory| category_item_of(c)))
    &&& (!s.loading)
    &&& (s.error is None)
}

/// The categories the server listed.
pub fn categories_loaded(cats: &Vec<AppCategory>) -> (s: CategoriesState)
    ensures
        categories_listed(s, cats),
{
    let mut items: Vec<CategoryItem> = Vec::new();
    let mut i: usize = 0;
    while i < cats.len()
        invariant
            i <= cats@.len(),
            items@ == cats@.take(i as int).map_values(|c: AppCategory| category_item_of(c)),
        decreases cats@.len() - i,
    {
        let c = &cats[i];
        items.push(
            CategoryItem {
                id: c.id.clone(),
                name: c.name.clone(),
                parent_id: copy_opt(&c.parent_id),
                sort_order: c.sort_order,
            },
        );
        assert(items@ =~= cats@.take(i as int + 1).map_values(|c: AppCategory| category_item_of(c)));
        i = i + 1;
    }
    assert(cats@.take(i as int) =~= cats@);
    CategoriesState { items, loading: false, error: None }
}

/// The products of `category_id` while they load.
pub open spec fn catalog_loading_state(s: CatalogProductsState, category_id: Seq<char>) -> bool {
    &&& (s.category_id@ == category_id)
    &&& (s.items@.len() == 0)
    &&& (s.loading)
    &&& (!s.has_more)
    &&& (s.error is None)
}

/// The products of `category_id` while they load.
pub fn catalog_loading(category_id: &str) -> (s: CatalogProductsState)
    ensures
        catalog_loading_state(s, category_id@),
{
    CatalogProductsState {
        category_id: category_id.to_owned(),
        items: Vec::new(),
        loading: true,
        has_more: false,
        error: None,
    }
}

/// The products of `category_id` the server listed in `resp`.
pub open spec fn catalog_listed(s: CatalogProductsState, category_id: Seq<char>, resp: &ProductListResponse) -> bool {
    &&& (s.category_id@ == category_id)
    &&& (s.items@ == resp.items@.map_values(|p: AppProduct| product_item_of(p)))
    &&& (!s.loading)
    &&& (s.has_more == resp.has_more)
    &&& (s.error is None)
}

/// The products of `category_id` the server listed.
pub fn catalog_loaded(category_id: &str, resp: &ProductListResponse) -> (s: CatalogProductsState)
    ensures
        catalog_listed(s, category_id@, resp),
{
    CatalogProductsState {
        category_id: category_id.to_owned(),
        items: product_items(&resp.items),
        loading: false,
        has_more: resp.has_more,
        error: None,
    }
}

/// The detail page of product `p`.
pub open spec fn product_detail_state(s: ProductDetailState, p: &AppProduct) -> bool {
    &&& (s.id == p.id)
    &&& (s.title == p.title)
    &&& (s.description == p.description)
    &&& (s.price == p.price)
    &&& (s.stock == p.stock)
    &&& (s.images@ == p.images@)
    &&& (s.rating == p.rating)
    &&& (s.review_count == p.review_count)
    &&& (s.shop_id == p.shop_id)
    &&& (s.shop_name == p.shop_name)
    &&& (!s.loading)
}

/// The detail page of a product.
pub fn product_detail_of(p: &AppProduct) -> (s: ProductDetailState)
    ensures
        product_detail_state(s, p),
{
    ProductDetailState {
        id: p.id.clone(),
        title: p.title.clone(),
        description: copy_opt(&p.description),
        price: p.price,
        stock: p.stock,
        images: copy_strings(&p.images),
        rating: p.rating,
        review_count: p.review_count,
        shop_id: p.shop_id.clone(),
        shop_name: p.shop_name.clone(),
        loading: false,
    }
}

/// The results shown when a search for `query` starts, and whether the server is asked.
pub open spec fn search_started(r: (SearchResultsState, bool), query: Seq<char>) -> bool {
    &&& (r.1 == (query.len() > 0))
    &&& (r.0.query@ == query)
    &&& (r.0.items@.len() == 0)
    &&& (r.0.loading == r.1)
    &&& (r.0.error is None)
}

/// The search results shown when a search for `query` starts, and whether
/// the server is asked: an empty query shows empty, settled results and
/// asks nothing; any other query shows it loading and asks.
pub fn search_begin(query: &str) -> (r: (SearchResultsState, bool))
    ensures
        search_started(r, query@),
{
    let ask = !query.is_empty();
    let q = if ask {
        query.to_owned()
    } else {
        let e = String::new();
        assert(e@ =~= query@);
        e
    };
    (SearchResultsState { query: q, items: Vec::new(), loading: ask, error: None }, ask)
}

/// The results for `query` the server found in `resp`.
pub open spec fn search_listed(s: SearchResultsState, query: Seq<char>, resp: &ProductListResponse) -> bool {
    &&& (s.query@ == query)
    &&& (s.items@ == resp.items@.map_values(|p: AppProduct| product_item_of(p)))
    &&& (!s.loading)
    &&& (s.error is None)
}

/// The search results for `query` the server found.
pub fn search_loaded(query: &str, resp: &ProductListResponse) -> (s: SearchResultsState)
    ensures
        search_listed(s, query@, resp),
{
    SearchResultsState {
        query: query.to_owned(),
        items: product_items(&resp.items),
        loading: false,
        error: None,
    }
}

/// The cart while it loads.
pub open spec fn cart_loading_state(s: CartState) -> bool {
    &&& (s.items@.len() == 0)
    &&& (s.total_amount == 0)
    &&& (s.loading)
    &&& (s.error is None)
}

/// The cart while it loads.
pub fn cart_loading() -> (s: CartState)
    ensures
        cart_loading_state(s),
{
    CartState { items: Vec::new(), total_amount: 0, loading: true, error: None }
}

/// The cart as the server reported it in `resp`.
pub open spec fn cart_state(s: CartState, resp: &CartResponse) -> bool {
    &&& (s.items@ == resp.items@.map_values(|c: AppCartItem| cart_entry_of(c)))
    &&& (s.total_amount == resp.total_amount)
    &&& (!s.loading)
    &&& (s.error is None)
}

/// The cart as the server reported it (after a load, add or update).
pub fn cart_of(resp: &CartResponse) -> (s: CartState)
    ensures
        cart_state(s, resp),
{
    CartState {
        items: cart_entries(&resp.items),
        total_amount: resp.total_amount,
        loading: false,
        error: None,
    }
}

/// The detail page of order `d`.
pub open spec fn order_detail_state(s: OrderDetailState, d: &AppOrderDetail) -> bool {
    &&& (s.id == d.id)
    &&& (s.shop_name == d.shop_name)
    &&& (s.status == d.status)
    &&& (s.total_amount == d.total_amount)
    &&& (s.items@ == d.items@.map_values(|o: AppOrderItem| order_line_of(o)))
    &&& (s.shipping_address == d.shipping_address)
    &&& (s.paid_at == d.paid_at)
    &&& (s.created_at == d.created_at)
    &&& (!s.loading)
}

/// The detail page of an order (after it was created, loaded or paid).
pub fn order_detail_of(d: &AppOrderDetail) -> (s: OrderDetailState)
    ensures
        order_detail_state(s, d),
{
    OrderDetailState {
        id: d.id.clone(),
        shop_name: d.shop_name.clone(),
        status: d.status.clone(),
        total_amount: d.total_amount,
        items: order_lines(&d.items),
        shipping_address: d.shipping_address.clone(),
        paid_at: copy_opt(&d.paid_at),
        created_at: d.created_at.clone(),
        loading: false,
    }
}

/// The order list while it loads.
pub open spec fn order_list_loading_state(s: OrderListState) -> bool {
    &&& (s.items@.len() == 0)
    &&& (s.loading)
    &&& (!s.has_more)
    &&& (s.error is None)
}

/// The order list while it loads.
pub fn order_list_loading() -> (s: OrderListState)
    ensures
        order_list_loading_state(s),
{
    OrderListState { items: Vec::new(), loading: true, has_more: false, error: None }
}

/// The order list the server reported in `resp`.
pub open spec fn order_list_state(s: OrderListState, resp: &OrderListResponse) -> bool {
    &&& (s.items@ == resp.items@.map_values(|o: AppOrderSummary| order_summary_of(o)))
    &&& (!s.loading)
    &&& (s.has_more == resp.has_more)
    &&& (s.error is None)
}

/// The order list the server reported.
pub fn order_list_of(resp: &OrderListResponse) -> (s: OrderListState)
    ensures
        order_list_state(s, resp),
{
    let v = &resp.items;
    let mut items: Vec<OrderSummary> = Vec::new();
    let mut i: usize = 0;
    while i < v.len()
        invariant
            i <= v@.len(),
            items@ == v@.take(i as int).map_values(|o: AppOrderSummary| order_summary_of(o)),
        decreases v@.len() - i,
    {
        let o = &v[i];
        items.push(
            OrderSummary {
                id: o.id.clone(),
                shop_name: o.shop_name.clone(),
                status: o.status.clone(),
                total_amount: o.total_amount,
                item_count: o.item_count,
                created_at: o.created_at.clone(),
            },
        );
        assert(items@ =~= v@.take(i as int + 1).map_values(|o: AppOrderSummary| order_summary_of(o)));
        i = i + 1;
    }
    assert(v@.take(i as int) =~= v@);
    OrderListState { items, loading: false, has_more: resp.has_more, error: None }
}

/// The saved addresses while they load.
pub open spec fn addresses_loading_state(s: AddressListState) -> bool {
    &&& (s.items@.len() == 0)
    &&& (s.loading)
}

/// The saved addresses while they load.
pub fn addresses_loading() -> (s: AddressListState)
    ensures
        addresses_loading_state(s),
{
    AddressListState { items: Vec::new(), loading: true }
}

/// The saved addresses `v` the server listed.
pub open spec fn addresses_state(s: AddressListState, v: &Vec<AppAddress>) -> bool {
    &&& (s.items@.len() == v@.len())
    &&& (forall|i: int| 0 <= i < v@.len() ==> address_entry_of(v@[i], #[trigger] s.items@[i]))
    &&& (!s.loading)
}

/// The saved addresses the server listed.
pub fn addresses_of(v: &Vec<AppAddress>) -> (s: AddressListState)
    ensures
        addresses_state(s, v),
{
    let mut items: Vec<AddressEntry> = Vec::new();
    let mut i: usize = 0;
    while i < v.len()
        invariant
            i <= v@.len(),
            items@.len() == i,
            forall|k: int| 0 <= k < i ==> address_entry_of(v@[k], #[trigger] items@[k]),
        decreases v@.len() - i,
    {
        let a = &v[i];
        let full = concat5(
            a.province.as_str(),
            a.city.as_str(),
            a.district.as_str(),
            " ",
            a.detail.as_str(),
        );
        items.push(
            AddressEntry {
                id: a.id.clone(),
                recipient_name: a.recipient_name.clone(),
                phone: a.phone.clone(),
                full_address: full,
                is_default: a.is_default,
            },
        );
        i = i + 1;
    }
    AddressListState { items, loading: false }
}

/// Whether the order is reloaded after a payment attempt: only when the
/// payment succeeded.
pub fn reload_after_payment(result: &PaymentResponse) -> (r: bool)
    ensures
        r == result.success,
{
    result.success
}

/// The product detail page copies every field of the server's product into
/// the field of the same name (the shop's name into `shop_name`, its id
/// into `shop_id`, and so on) and is settled.
pub proof fn law_product_detail_copies_product(s: ProductDetailState, p: AppProduct)
    requires
        product_detail_state(s, &p),
    ensures
        s.id == p.id,
        s.title == p.title,
        s.description == p.description,
        s.price == p.price,
        s.stock == p.stock,
        s.images@ == p.images@,
        s.rating == p.rating,
        s.review_count == p.review_count,
        s.shop_id == p.shop_id,
        s.shop_name == p.shop_name,
        !s.loading,
{
}

/// `items` shows `products` one for one, in order: each entry has its
/// product's id, title, price, rating and shop name, and its first image
/// if it has one.
pub open spec fn shows_products(items: Seq<ProductItem>, products: Seq<AppProduct>) -> bool {
    &&& items.len() == products.len()
    &&& forall|i: int|
        0 <= i < products.len() ==> {
            &&& (#[trigger] items[i]).id == products[i].id
            &&& items[i].title == products[i].title
            &&& items[i].price == products[i].price
            &&& items[i].rating == products[i].rating
            &&& items[i].shop_name == products[i].shop_name
            &&& (products[i].images@.len() > 0 ==> items[i].image == Some(products[i].images@[0]))
            &&& (products[i].images@.len() == 0 ==> items[i].image is None)
        }
}

proof fn lemma_product_items_show_products(items: Seq<ProductItem>, products: Seq<AppProduct>)
    requires
        items == products.map_values(|p: AppProduct| product_item_of(p)),
    ensures
        shows_products(items, products),
{
    assert forall|i: int| 0 <= i < products.len() implies {
        &&& (#[trigger] items[i]).id == products[i].id
        &&& items[i].title == products[i].title
        &&& items[i].price == products[i].price
        &&& items[i].rating == products[i].rating
        &&& items[i].shop_name == products[i].shop_name
        &&& (products[i].images@.len() > 0 ==> items[i].image == Some(products[i].images@[0]))
        &&& (products[i].images@.len() == 0 ==> items[i].image is None)
    } by {
        assert(items[i] == product_item_of(products[i]));
    }
}

/// A category's listed page shows that category and the server's products
/// one for one, in order, says whether there are more as the server said,
/// and is settled.
pub proof fn law_catalog_shows_server_products(
    s: CatalogProductsState,
    category_id: Seq<char>,
    resp: ProductListResponse,
)
    requires
        catalog_listed(s, category_id, &resp),
    ensures
        s.category_id@ == category_id,
        shows_products(s.items@, resp.items@),
        s.has_more == resp.has_more,
        !s.loading,
        s.error is None,
{
    lemma_product_items_show_products(s.items@, resp.items@);
}

/// The results of a search show its query and the server's products one
/// for one, in order, and are settled.
pub proof fn law_search_shows_server_products(
    s: SearchResultsState,
    query: Seq<char>,
    resp: ProductListResponse,
)
    requires
        search_listed(s, query, &resp),
    ensures
        s.query@ == query,
        shows_products(s.items@, resp.items@),
        !s.loading,
        s.error is None,
{
    lemma_product_items_show_products(s.items@, resp.items@);
}

/// The listed categories show one entry per category, in the server's
/// order, with its id, name, parent and sort order, settled.
pub proof fn law_listed_categories_shown_in_order(s: CategoriesState, cats: Vec<AppCategory>)
    requires
        categories_listed(s, &cats),
    ensures
        s.items@.len() == cats@.len(),
        !s.loading,
        s.error is None,
        forall|i: int|
            0 <= i < cats@.len() ==> {
                &&& (#[trigger] s.items@[i]).id == cats@[i].id
                &&& s.items@[i].name == cats@[i].name
                &&& s.items@[i].parent_id == cats@[i].parent_id
                &&& s.items@[i].sort_order == cats@[i].sort_order
            },
{
    assert forall|i: int| 0 <= i < cats@.len() implies {
        &&& (#[trigger] s.items@[i]).id == cats@[i].id
        &&& s.items@[i].name == cats@[i].name
        &&& s.items@[i].parent_id == cats@[i].parent_id
        &&& s.items@[i].sort_order == cats@[i].sort_order
    } by {
        assert(s.items@[i] == category_item_of(cats@[i]));
    }
}

/// After the server accepted a login, the login state holds the user id,
/// token and role the server gave, is authenticated, settled and without
/// error.
pub proof fn law_login_keeps_server_identity(s: AuthState, resp: LoginResponse)
    requires
        logged_in_as(s, &resp),
    ensures
        s.phase == AuthPhase::Authenticated,
        s.user_id == Some(resp.user_id),
        s.token == Some(resp.access_token),
        s.role == Some(resp.role),
        !s.busy,
        s.error is None,
{
}

/// The order list shows the server's orders one for one, in order, each
/// with its id, shop, status, total, item count and creation time; it says
/// whether there are more as the server said, and is settled.
pub proof fn law_order_list_shows_server_orders(s: OrderListState, resp: OrderListResponse)
    requires
        order_list_state(s, &resp),
    ensures
        s.items@.len() == resp.items@.len(),
        s.has_more == resp.has_more,
        !s.loading,
        s.error is None,
        forall|i: int|
            0 <= i < resp.items@.len() ==> {
                &&& (#[trigger] s.items@[i]).id == resp.items@[i].id
                &&& s.items@[i].shop_name == resp.items@[i].shop_name
                &&& s.items@[i].status == resp.items@[i].status
                &&& s.items@[i].total_amount == resp.items@[i].total_amount
                &&& s.items@[i].item_count == resp.items@[i].item_count
                &&& s.items@[i].created_at == resp.items@[i].created_at
            },
{
    assert forall|i: int| 0 <= i < resp.items@.len() implies {
        &&& (#[trigger] s.items@[i]).id == resp.items@[i].id
        &&& s.items@[i].shop_name == resp.items@[i].shop_name
        &&& s.items@[i].status == resp.items@[i].status
        &&& s.items@[i].total_amount == resp.items@[i].total_amount
        &&& s.items@[i].item_count == resp.items@[i].item_count
        &&& s.items@[i].created_at == resp.items@[i].created_at
    } by {
        assert(s.items@[i] == order_summary_of(resp.items@[i]));
    }
}

/// The address list shows the server's addresses one for one, in order,
/// each with its id, recipient, phone and default flag, and as its full
/// address the province, city and district run together, a space, and the
/// street detail; it is settled.
pub proof fn law_addresses_shown_in_order(s: AddressListState, v: Vec<AppAddress>)
    requires
        addresses_state(s, &v),
    ensures
        s.items@.len() == v@.len(),
        !s.loading,
        forall|i: int|
            0 <= i < v@.len() ==> {
                &&& (#[trigger] s.items@[i]).id == v@[i].id
                &&& s.items@[i].recipient_name == v@[i].recipient_name
                &&& s.items@[i].phone == v@[i].phone
                &&& s.items@[i].is_default == v@[i].is_default
                &&& s.items@[i].full_address@ == v@[i].province@ + v@[i].city@ + v@[i].district@
                    + " "@ + v@[i].detail@
            },
{
    assert forall|i: int| 0 <= i < v@.len() implies {
        &&& (#[trigger] s.items@[i]).id == v@[i].id
        &&& s.items@[i].recipient_name == v@[i].recipient_name
        &&& s.items@[i].phone == v@[i].phone
        &&& s.items@[i].is_default == v@[i].is_default
        &&& s.items@[i].full_address@ == v@[i].province@ + v@[i].city@ + v@[i].district@ + " "@
            + v@[i].detail@
    } by {
        assert(address_entry_of(v@[i], s.items@[i]));
    }
}

} // verus!
