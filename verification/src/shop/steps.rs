//! The ShopFlux handlers as steps: for a request, what is written to the
//! state store, in which order, and what is asked of the server next; for
//! each answer, the same again. The handler runner performs the writes and
//! the exchanges and feeds the answers back.
use vstd::prelude::*;
use crate::shop::bff::{
    addresses_loading, addresses_loading_state, addresses_of,
    addresses_state, cart_entry_of, cart_loading, cart_loading_state, cart_of, cart_state, catalog_listed,
    catalog_loaded, catalog_loading, catalog_loading_state, categories_listed, categories_loaded,
    categories_loading, categories_loading_state, cleared_on_logout, logged_in_as, logged_out,
    logged_out_state, login_failed, login_pending, login_refused, login_succeeded,
    order_detail_of, order_detail_state, order_line_of, order_list_loading, order_list_loading_state,
    order_list_of, order_list_state, pending_login, reload_after_payment, product_detail_of, product_detail_state,
    search_begin, search_listed, search_loaded, search_started,
};
use crate::shop::calls::{
    add_to_cart_call, addresses_call, cart_call, categories_call, category_products_call,
    create_order_call, is_add_to_cart_call, is_addresses_call, is_cart_call, is_categories_call,
    is_category_products_call, is_create_order_call, is_load_order_detail_call,
    is_order_detail_call, is_order_list_call, is_pay_order_call, is_product_detail_call,
    is_search_call, is_update_cart_call, load_order_detail_call, order_detail_call,
    order_list_call, pay_order_call, product_detail_call, search_call, update_cart_call,
    ServerCall,
};
use crate::shop::records::{
    AppAddress, AppCategory, AppOrderDetail, AppProduct, CartResponse, LoginResponse,
    OrderListResponse, PaymentResponse, ProductListResponse,
};
use crate::shop::requests::{
    AddToCartReq, CreateOrderReq, LoadCategoryProductsReq, LoadOrderDetailReq,
    LoadProductDetailReq, LoginReq, PayOrderReq, SearchProductsReq, UpdateCartReq,
};
use crate::shop::state::{
    AddressListState, AuthPhase, AuthState, CartState, CatalogProductsState, CategoriesState,
    OrderDetailState, OrderListState, ProductDetailState, SearchResultsState,
};

verus! {

/// A ShopFlux request, as its handler receives it.
pub enum ShopRequest {
    Login(LoginReq),
    Logout,
    LoadCategories,
    LoadCategoryProducts(LoadCategoryProductsReq),
    LoadProductDetail(LoadProductDetailReq),
    SearchProducts(SearchProductsReq),
    LoadCart,
    AddToCart(AddToCartReq),
    UpdateCart(UpdateCartReq),
    CreateOrder(CreateOrderReq),
    LoadOrderList,
    LoadOrderDetail(LoadOrderDetailReq),
    PayOrder(PayOrderReq),
    LoadAddresses,
}

/// A page state, stored at the path of its kind.
pub enum PageState {
    Auth(AuthState),
    Categories(CategoriesState),
    Catalog(CatalogProductsState),
    ProductDetail(ProductDetailState),
    Search(SearchResultsState),
    Cart(CartState),
    OrderDetail(OrderDetailState),
    OrderList(OrderListState),
    Addresses(AddressListState),
}

/// One write to the state store.
pub enum StoreWrite {
    /// Store the state at the path of its kind.
    Put(PageState),
    /// Remove the state at a path.
    Remove(&'static str),
}

/// What a server answer is read as.
#[derive(PartialEq, Eq, Structural, Clone, Copy, Debug)]
pub enum AnswerKind {
    Categories,
    Products,
    Product,
    Cart,
    Order,
    Orders,
    Payment,
    Addresses,
}

/// What is asked of the server.
pub enum Exchange {
    /// Log in with these credentials.
    Login { username: String, password: String },
    /// Make the call and read its answer as the given kind.
    Call(ServerCall, AnswerKind),
}

/// The server's answer, as read.
pub enum Answer {
    LoggedIn(LoginResponse),
    LoginRefused,
    Categories(Vec<AppCategory>),
    Products(ProductListResponse),
    Product(AppProduct),
    Cart(CartResponse),
    Order(AppOrderDetail),
    Orders(OrderListResponse),
    Payment(PaymentResponse),
    Addresses(Vec<AppAddress>),
    /// No answer came, or it could not be read as the kind asked for.
    Nothing,
}

/// What a handler does now: the writes, in order, the session token to
/// keep (after a login), and what to ask the server next.
pub struct Step {
    pub writes: Vec<StoreWrite>,
    pub token: Option<String>,
    pub next: Option<Exchange>,
}

/// `st` does nothing.
pub open spec fn idle(st: Step) -> bool {
    st.writes@.len() == 0 && st.token is None && st.next is None
}

/// `st` only makes `call`, read as `kind`.
pub open spec fn only_calls(st: Step, kind: AnswerKind) -> bool {
    &&& st.writes@.len() == 0
    &&& st.token is None
    &&& st.next matches Some(Exchange::Call(_, k)) && k == kind
}

/// The call `st` makes next.
pub open spec fn next_call(st: Step) -> ServerCall {
    match st.next {
        Some(Exchange::Call(c, _)) => c,
        _ => arbitrary(),
    }
}

/// `st` writes exactly one state and then asks `kind` of the server.
pub open spec fn writes_one_then_calls(st: Step, kind: AnswerKind) -> bool {
    &&& st.writes@.len() == 1
    &&& st.token is None
    &&& st.next matches Some(Exchange::Call(_, k)) && k == kind
}

/// `st` writes exactly one state and asks nothing more.
pub open spec fn writes_one(st: Step) -> bool {
    st.writes@.len() == 1 && st.token is None && st.next is None
}

/// `st` stores the cart the server reported in `resp`.
pub open spec fn cart_written(st: Step, resp: CartResponse) -> bool {
    &&& writes_one(st)
    &&& (st.writes@[0] matches StoreWrite::Put(PageState::Cart(c)) && cart_state(c, &resp))
}

/// `st` stores the detail page of order `d`.
pub open spec fn order_written(st: Step, d: AppOrderDetail) -> bool {
    &&& writes_one(st)
    &&& (st.writes@[0] matches StoreWrite::Put(PageState::OrderDetail(o)) && order_detail_state(o, &d))
}

/// What a handler does when its request arrives.
pub open spec fn begin_step(req: ShopRequest, st: Step) -> bool {
    match req {
        ShopRequest::Login(r) => {
            &&& st.writes@.len() == 1
            &&& (st.writes@[0] matches StoreWrite::Put(PageState::Auth(a)) && pending_login(a))
            &&& st.token is None
            &&& (st.next matches Some(Exchange::Login { username, password }) && username@
                == r.username@ && password@ == r.password@)
        },
        ShopRequest::Logout => {
            &&& st.writes@.len() == 3
            &&& (st.writes@[0] matches StoreWrite::Put(PageState::Auth(a)) && logged_out_state(a))
            &&& st.writes@[1] == StoreWrite::Remove(CartState::PATH)
            &&& st.writes@[2] == StoreWrite::Remove(OrderListState::PATH)
            &&& st.token is None
            &&& st.next is None
        },
        ShopRequest::LoadCategories => {
            &&& writes_one_then_calls(st, AnswerKind::Categories)
            &&& (st.writes@[0] matches StoreWrite::Put(PageState::Categories(c))
                && categories_loading_state(c))
            &&& is_categories_call(next_call(st))
        },
        ShopRequest::LoadCategoryProducts(r) => {
            &&& writes_one_then_calls(st, AnswerKind::Products)
            &&& (st.writes@[0] matches StoreWrite::Put(PageState::Catalog(c))
                && catalog_loading_state(c, r.category_id@))
            &&& is_category_products_call(next_call(st), &r)
        },
        ShopRequest::LoadProductDetail(r) => {
            &&& only_calls(st, AnswerKind::Product)
            &&& is_product_detail_call(next_call(st), &r)
        },
        ShopRequest::SearchProducts(r) => {
            &&& st.writes@.len() == 1
            &&& st.token is None
            &&& (st.writes@[0] matches StoreWrite::Put(PageState::Search(s)) && search_started(
                (s, r.query@.len() > 0),
                r.query@,
            ))
            &&& (r.query@.len() > 0 ==> (st.next matches Some(Exchange::Call(c, k)) && k
                == AnswerKind::Products && is_search_call(c, &r)))
            &&& (r.query@.len() == 0 ==> st.next is None)
        },
        ShopRequest::LoadCart => {
            &&& writes_one_then_calls(st, AnswerKind::Cart)
            &&& (st.writes@[0] matches StoreWrite::Put(PageState::Cart(c)) && cart_loading_state(c))
            &&& is_cart_call(next_call(st))
        },
        ShopRequest::AddToCart(r) => {
            &&& only_calls(st, AnswerKind::Cart)
            &&& is_add_to_cart_call(next_call(st), &r)
        },
        ShopRequest::UpdateCart(r) => {
            &&& only_calls(st, AnswerKind::Cart)
            &&& is_update_cart_call(next_call(st), &r)
        },
        ShopRequest::CreateOrder(r) => {
            &&& only_calls(st, AnswerKind::Order)
            &&& is_create_order_call(next_call(st), &r)
        },
        ShopRequest::LoadOrderList => {
            &&& writes_one_then_calls(st, AnswerKind::Orders)
            &&& (st.writes@[0] matches StoreWrite::Put(PageState::OrderList(o))
                && order_list_loading_state(o))
            &&& is_order_list_call(next_call(st))
        },
        ShopRequest::LoadOrderDetail(r) => {
            &&& only_calls(st, AnswerKind::Order)
            &&& is_load_order_detail_call(next_call(st), &r)
        },
        ShopRequest::PayOrder(r) => {
            &&& only_calls(st, AnswerKind::Payment)
            &&& is_pay_order_call(next_call(st), &r)
        },
        ShopRequest::LoadAddresses => {
            &&& writes_one_then_calls(st, AnswerKind::Addresses)
            &&& (st.writes@[0] matches StoreWrite::Put(PageState::Addresses(a))
                && addresses_loading_state(a))
            &&& is_addresses_call(next_call(st))
        },
    }
}

/// What a handler does with the server's answer: it stores the state the
/// answer gives; after a successful payment it fetches the order again;
/// an answer that is missing, unreadable or of another kind changes
/// nothing (the loading state stays).
pub open spec fn answer_step(req: ShopRequest, ans: Answer, st: Step) -> bool {
    match (req, ans) {
        (ShopRequest::Login(_), Answer::LoggedIn(resp)) => {
            &&& st.writes@.len() == 1
            &&& (st.writes@[0] matches StoreWrite::Put(PageState::Auth(a)) && logged_in_as(a, &resp))
            &&& (st.token matches Some(t) && t@ == resp.access_token@)
            &&& st.next is None
        },
        (ShopRequest::Login(r), Answer::LoginRefused) => {
            &&& writes_one(st)
            &&& (st.writes@[0] matches StoreWrite::Put(PageState::Auth(a)) && login_refused(
                a,
                r.username@,
            ))
        },
        (ShopRequest::LoadCategories, Answer::Categories(cats)) => {
            &&& writes_one(st)
            &&& (st.writes@[0] matches StoreWrite::Put(PageState::Categories(c)) && categories_listed(
                c,
                &cats,
            ))
        },
        (ShopRequest::LoadCategoryProducts(r), Answer::Products(resp)) => {
            &&& writes_one(st)
            &&& (st.writes@[0] matches StoreWrite::Put(PageState::Catalog(c)) && catalog_listed(
                c,
                r.category_id@,
                &resp,
            ))
        },
        (ShopRequest::LoadProductDetail(_), Answer::Product(p)) => {
            &&& writes_one(st)
            &&& (st.writes@[0] matches StoreWrite::Put(PageState::ProductDetail(d))
                && product_detail_state(d, &p))
        },
        (ShopRequest::SearchProducts(r), Answer::Products(resp)) => {
            &&& writes_one(st)
            &&& (st.writes@[0] matches StoreWrite::Put(PageState::Search(s)) && search_listed(
                s,
                r.query@,
                &resp,
            ))
        },
        (ShopRequest::LoadCart, Answer::Cart(resp)) => cart_written(st, resp),
        (ShopRequest::AddToCart(_), Answer::Cart(resp)) => cart_written(st, resp),
        (ShopRequest::UpdateCart(_), Answer::Cart(resp)) => cart_written(st, resp),
        (ShopRequest::CreateOrder(_), Answer::Order(d)) => order_written(st, d),
        (ShopRequest::LoadOrderDetail(_), Answer::Order(d)) => order_written(st, d),
        (ShopRequest::PayOrder(_), Answer::Order(d)) => order_written(st, d),
        (ShopRequest::LoadOrderList, Answer::Orders(resp)) => {
            &&& writes_one(st)
            &&& (st.writes@[0] matches StoreWrite::Put(PageState::OrderList(o)) && order_list_state(
                o,
                &resp,
            ))
        },
        (ShopRequest::PayOrder(r), Answer::Payment(p)) => if p.success {
            &&& only_calls(st, AnswerKind::Order)
            &&& is_order_detail_call(next_call(st), r.order_id@)
        } else {
            idle(st)
        },
        (ShopRequest::LoadAddresses, Answer::Addresses(v)) => {
            &&& writes_one(st)
            &&& (st.writes@[0] matches StoreWrite::Put(PageState::Addresses(a)) && addresses_state(
                a,
                &v,
            ))
        },
        _ => idle(st),
    }
}

/// Each loading handler first shows its page loading with nothing in it,
/// and then asks the server, reading the answer as the page's kind: the
/// categories; a category's products (for that category, with nothing
/// more to come); the cart (with total 0); the orders (with nothing more
/// to come); the addresses.
pub proof fn law_loading_handlers_show_loading_first(req: ShopRequest, st: Step)
    requires
        req is LoadCategories || req is LoadCategoryProducts || req is LoadCart
            || req is LoadOrderList || req is LoadAddresses,
        begin_step(req, st),
    ensures
        st.writes@.len() == 1,
        st.token is None,
        req is LoadCategories ==> (st.writes@[0] matches StoreWrite::Put(PageState::Categories(c))
            && c.items@.len() == 0 && c.loading && c.error is None) && (st.next matches Some(
            Exchange::Call(_, k),
        ) && k == AnswerKind::Categories),
        req matches ShopRequest::LoadCategoryProducts(r) ==> (st.writes@[0] matches StoreWrite::Put(
            PageState::Catalog(c),
        ) && c.category_id@ == r.category_id@ && c.items@.len() == 0 && c.loading && !c.has_more
            && c.error is None) && (st.next matches Some(Exchange::Call(_, k)) && k
            == AnswerKind::Products),
        req is LoadCart ==> (st.writes@[0] matches StoreWrite::Put(PageState::Cart(c))
            && c.items@.len() == 0 && c.total_amount == 0 && c.loading && c.error is None) && (
        st.next matches Some(Exchange::Call(_, k)) && k == AnswerKind::Cart),
        req is LoadOrderList ==> (st.writes@[0] matches StoreWrite::Put(PageState::OrderList(o))
            && o.items@.len() == 0 && o.loading && !o.has_more && o.error is None) && (
        st.next matches Some(Exchange::Call(_, k)) && k == AnswerKind::Orders),
        req is LoadAddresses ==> (st.writes@[0] matches StoreWrite::Put(PageState::Addresses(a))
            && a.items@.len() == 0 && a.loading) && (st.next matches Some(Exchange::Call(_, k)) && k
            == AnswerKind::Addresses),
{
}

/// A refused login shows the login page settled, unauthenticated, holding
/// no user, token or role, with the error `Login failed for '{username}'`
/// naming the user who tried, and asks nothing more.
pub proof fn law_refused_login_names_user(r: LoginReq, st: Step)
    requires
        answer_step(ShopRequest::Login(r), Answer::LoginRefused, st),
    ensures
        st.writes@.len() == 1,
        st.token is None,
        st.next is None,
        st.writes@[0] matches StoreWrite::Put(PageState::Auth(a)) && {
            &&& a.phase == AuthPhase::Unauthenticated
            &&& a.user_id is None
            &&& a.token is None
            &&& a.role is None
            &&& !a.busy
            &&& (a.error matches Some(e) && e@ == "Login failed for '"@ + r.username@ + "'"@)
        },
{
}

/// Whatever cart request was made (loading, adding or updating), the
/// server's cart answer is stored as it came and nothing more is asked:
/// one write, of the cart page, holding the server's lines in their order
/// with their quantities and prices, and the server's total, settled and
/// without error.
pub proof fn law_cart_answer_is_stored(req: ShopRequest, resp: CartResponse, st: Step)
    requires
        req is LoadCart || req is AddToCart || req is UpdateCart,
        answer_step(req, Answer::Cart(resp), st),
    ensures
        st.writes@.len() == 1,
        st.token is None,
        st.next is None,
        st.writes@[0] matches StoreWrite::Put(PageState::Cart(c)) && {
            &&& c.total_amount == resp.total_amount
            &&& !c.loading
            &&& c.error is None
            &&& c.items@.len() == resp.items@.len()
            &&& forall|i: int|
                0 <= i < resp.items@.len() ==> {
                    &&& (#[trigger] c.items@[i]).id == resp.items@[i].id
                    &&& c.items@[i].product_id == resp.items@[i].product_id
                    &&& c.items@[i].title == resp.items@[i].title
                    &&& c.items@[i].price == resp.items@[i].price
                    &&& c.items@[i].image == resp.items@[i].image
                    &&& c.items@[i].quantity == resp.items@[i].quantity
                }
        },
{
    if let StoreWrite::Put(PageState::Cart(c)) = st.writes@[0] {
        assert(cart_state(c, &resp));
        assert forall|i: int| 0 <= i < resp.items@.len() implies {
            &&& (#[trigger] c.items@[i]).id == resp.items@[i].id
            &&& c.items@[i].product_id == resp.items@[i].product_id
            &&& c.items@[i].title == resp.items@[i].title
            &&& c.items@[i].price == resp.items@[i].price
            &&& c.items@[i].image == resp.items@[i].image
            &&& c.items@[i].quantity == resp.items@[i].quantity
        } by {
            assert(c.items@[i] == cart_entry_of(resp.items@[i]));
        }
    }
}

/// Whatever order request was made (placing, loading or paying), the
/// server's order answer is stored as it came and nothing more is asked:
/// one write, of the order detail page, holding the order's id, shop,
/// status, total, lines, address and times, settled.
pub proof fn law_order_answer_is_stored(req: ShopRequest, d: AppOrderDetail, st: Step)
    requires
        req is CreateOrder || req is LoadOrderDetail || req is PayOrder,
        answer_step(req, Answer::Order(d), st),
    ensures
        st.writes@.len() == 1,
        st.token is None,
        st.next is None,
        st.writes@[0] matches StoreWrite::Put(PageState::OrderDetail(o)) && {
            &&& o.id == d.id
            &&& o.shop_name == d.shop_name
            &&& o.status == d.status
            &&& o.total_amount == d.total_amount
            &&& o.shipping_address == d.shipping_address
            &&& o.paid_at == d.paid_at
            &&& o.created_at == d.created_at
            &&& !o.loading
            &&& o.items@.len() == d.items@.len()
            &&& forall|i: int|
                0 <= i < d.items@.len() ==> {
                    &&& (#[trigger] o.items@[i]).product_id == d.items@[i].product_id
                    &&& o.items@[i].title == d.items@[i].title
                    &&& o.items@[i].price == d.items@[i].price
                    &&& o.items@[i].quantity == d.items@[i].quantity
                }
        },
{
    if let StoreWrite::Put(PageState::OrderDetail(o)) = st.writes@[0] {
        assert(order_detail_state(o, &d));
        assert forall|i: int| 0 <= i < d.items@.len() implies {
            &&& (#[trigger] o.items@[i]).product_id == d.items@[i].product_id
            &&& o.items@[i].title == d.items@[i].title
            &&& o.items@[i].price == d.items@[i].price
            &&& o.items@[i].quantity == d.items@[i].quantity
        } by {
            assert(o.items@[i] == order_line_of(d.items@[i]));
        }
    }
}

fn one(w: StoreWrite) -> (v: Vec<StoreWrite>)
    ensures
        v@ == seq![w],
{
    let mut v: Vec<StoreWrite> = Vec::new();
    v.push(w);
    assert(v@ =~= seq![w]);
    v
}

fn write_then_call(w: StoreWrite, c: ServerCall, k: AnswerKind) -> (st: Step)
    ensures
        st.writes@ == seq![w],
        st.token is None,
        st.next == Some(Exchange::Call(c, k)),
{
    Step { writes: one(w), token: None, next: Some(Exchange::Call(c, k)) }
}

fn call_only(c: ServerCall, k: AnswerKind) -> (st: Step)
    ensures
        st.writes@.len() == 0,
        st.token is None,
        st.next == Some(Exchange::Call(c, k)),
{
    Step { writes: Vec::new(), token: None, next: Some(Exchange::Call(c, k)) }
}

fn write_only(w: StoreWrite) -> (st: Step)
    ensures
        st.writes@ == seq![w],
        st.token is None,
        st.next is None,
{
    Step { writes: one(w), token: None, next: None }
}

fn nothing() -> (st: Step)
    ensures
        idle(st),
{
    Step { writes: Vec::new(), token: None, next: None }
}

/// The first step of the handler of `req`.
pub fn shop_begin(req: &ShopRequest) -> (st: Step)
    ensures
        begin_step(*req, st),
{
    match req {
        ShopRequest::Login(r) => Step {
            writes: one(StoreWrite::Put(PageState::Auth(login_pending()))),
            token: None,
            next: Some(Exchange::Login { username: r.username.clone(), password: r.password.clone() }),
        },
        ShopRequest::Logout => {
            let mut w: Vec<StoreWrite> = Vec::new();
            w.push(StoreWrite::Put(PageState::Auth(logged_out())));
            let cleared = cleared_on_logout();
            w.push(StoreWrite::Remove(cleared[0]));
            w.push(StoreWrite::Remove(cleared[1]));
            Step { writes: w, token: None, next: None }
        },
        ShopRequest::LoadCategories => write_then_call(
            StoreWrite::Put(PageState::Categories(categories_loading())),
            categories_call(),
            AnswerKind::Categories,
        ),
        ShopRequest::LoadCategoryProducts(r) => write_then_call(
            StoreWrite::Put(PageState::Catalog(catalog_loading(r.category_id.as_str()))),
            category_products_call(r),
            AnswerKind::Products,
        ),
        ShopRequest::LoadProductDetail(r) => call_only(product_detail_call(r), AnswerKind::Product),
        ShopRequest::SearchProducts(r) => {
            let (shown, ask) = search_begin(r.query.as_str());
            let next = if ask {
                Some(Exchange::Call(search_call(r), AnswerKind::Products))
            } else {
                None
            };
            Step { writes: one(StoreWrite::Put(PageState::Search(shown))), token: None, next }
        },
        ShopRequest::LoadCart => write_then_call(
            StoreWrite::Put(PageState::Cart(cart_loading())),
            cart_call(),
            AnswerKind::Cart,
        ),
        ShopRequest::AddToCart(r) => call_only(add_to_cart_call(r), AnswerKind::Cart),
        ShopRequest::UpdateCart(r) => call_only(update_cart_call(r), AnswerKind::Cart),
        ShopRequest::CreateOrder(r) => call_only(create_order_call(r), AnswerKind::Order),
        ShopRequest::LoadOrderList => write_then_call(
            StoreWrite::Put(PageState::OrderList(order_list_loading())),
            order_list_call(),
            AnswerKind::Orders,
        ),
        ShopRequest::LoadOrderDetail(r) => call_only(load_order_detail_call(r), AnswerKind::Order),
        ShopRequest::PayOrder(r) => call_only(pay_order_call(r), AnswerKind::Payment),
        ShopRequest::LoadAddresses => write_then_call(
            StoreWrite::Put(PageState::Addresses(addresses_loading())),
            addresses_call(),
            AnswerKind::Addresses,
        ),
    }
}

/// The step of the handler of `req` once the server answered `ans`.
pub fn shop_answer(req: &ShopRequest, ans: Answer) -> (st: Step)
    ensures
        answer_step(*req, ans, st),
{
    match (req, ans) {
        (ShopRequest::Login(_), Answer::LoggedIn(resp)) => {
            let token = resp.access_token.clone();
            Step {
                writes: one(StoreWrite::Put(PageState::Auth(login_succeeded(&resp)))),
                token: Some(token),
                next: None,
            }
        },
        (ShopRequest::Login(r), Answer::LoginRefused) => write_only(
            StoreWrite::Put(PageState::Auth(login_failed(r.username.as_str()))),
        ),
        (ShopRequest::LoadCategories, Answer::Categories(cats)) => write_only(
            StoreWrite::Put(PageState::Categories(categories_loaded(&cats))),
        ),
        (ShopRequest::LoadCategoryProducts(r), Answer::Products(resp)) => write_only(
            StoreWrite::Put(PageState::Catalog(catalog_loaded(r.category_id.as_str(), &resp))),
        ),
        (ShopRequest::LoadProductDetail(_), Answer::Product(p)) => write_only(
            StoreWrite::Put(PageState::ProductDetail(product_detail_of(&p))),
        ),
        (ShopRequest::SearchProducts(r), Answer::Products(resp)) => write_only(
            StoreWrite::Put(PageState::Search(search_loaded(r.query.as_str(), &resp))),
        ),
        (ShopRequest::LoadCart, Answer::Cart(resp)) => write_only(
            StoreWrite::Put(PageState::Cart(cart_of(&resp))),
        ),
        (ShopRequest::AddToCart(_), Answer::Cart(resp)) => write_only(
            StoreWrite::Put(PageState::Cart(cart_of(&resp))),
        ),
        (ShopRequest::UpdateCart(_), Answer::Cart(resp)) => write_only(
            StoreWrite::Put(PageState::Cart(cart_of(&resp))),
        ),
        (ShopRequest::CreateOrder(_), Answer::Order(d)) => write_only(
            StoreWrite::Put(PageState::OrderDetail(order_detail_of(&d))),
        ),
        (ShopRequest::LoadOrderDetail(_), Answer::Order(d)) => write_only(
            StoreWrite::Put(PageState::OrderDetail(order_detail_of(&d))),
        ),
        (ShopRequest::PayOrder(_), Answer::Order(d)) => write_only(
            StoreWrite::Put(PageState::OrderDetail(order_detail_of(&d))),
        ),
        (ShopRequest::LoadOrderList, Answer::Orders(resp)) => write_only(
            StoreWrite::Put(PageState::OrderList(order_list_of(&resp))),
        ),
        (ShopRequest::PayOrder(r), Answer::Payment(p)) => {
            if reload_after_payment(&p) {
                call_only(order_detail_call(r.order_id.as_str()), AnswerKind::Order)
            } else {
                nothing()
            }
        },
        (ShopRequest::LoadAddresses, Answer::Addresses(v)) => write_only(
            StoreWrite::Put(PageState::Addresses(addresses_of(&v))),
        ),
        _ => nothing(),
    }
}

} // verus!
