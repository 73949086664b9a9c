use std::collections::hash_map::DefaultHasher;
use std::hash::{Hash, Hasher};

use appnut::shop::bff::{
    addresses_loading, addresses_of, cart_loading, cart_of, catalog_loaded, catalog_loading,
    categories_loaded, categories_loading, cleared_on_logout, logged_out, login_failed, login_pending,
    login_succeeded, order_detail_of, order_list_loading, order_list_of, product_detail_of,
    reload_after_payment, search_begin, search_loaded, to_product_item,
};
use appnut::shop::calls::{
    add_to_cart_call, addresses_call, app_url, bearer_value, cart_call, categories_call,
    category_products_call, create_order_call, load_order_detail_call, order_detail_call,
    order_list_call, pay_order_call, product_detail_call, search_call, update_cart_call,
    CallBody, HttpMethod,
};
use appnut::shop::helpers::format_price;
use appnut::shop::i18n::{locale_index, ErrorStrings, UiStrings};
use appnut::shop::module::{hash_pw, ShopModule};
use appnut::shop::records::{
    AppAddress, AppCartItem, AppCategory, AppOrderDetail, AppOrderItem, AppOrderSummary,
    AppProduct, CartResponse, LoginResponse, OrderListResponse, PaginationParams,
    PaymentResponse, ProductListResponse,
};
use appnut::shop::requests::{
    AddToCartReq, CreateOrderReq, LoadCategoryProductsReq, LoadOrderDetailReq,
    LoadProductDetailReq, PayOrderReq, SearchProductsReq, UpdateCartReq,
};
use appnut::shop::state::{AuthPhase, AuthState, CartState, OrderListState};

fn product(id: &str, images: Vec<&str>) -> AppProduct {
    AppProduct {
        id: id.to_string(),
        title: format!("Product {id}"),
        description: Some("A thing".to_string()),
        price: 12999,
        stock: 7,
        images: images.into_iter().map(|s| s.to_string()).collect(),
        rating: 45,
        review_count: 3,
        shop_id: "shop1".to_string(),
        shop_name: "Gadget Store".to_string(),
    }
}

// ---------------------------------------------------------------------------
// Prices
// ---------------------------------------------------------------------------

#[test]
fn format_price_two_digit_cents() {
    assert_eq!(format_price(12999), "129.99");
    assert_eq!(format_price(100), "1.00");
}

#[test]
fn format_price_pads_cents() {
    assert_eq!(format_price(5), "0.05");
    assert_eq!(format_price(0), "0.00");
    assert_eq!(format_price(1001), "10.01");
}

#[test]
fn format_price_largest_amount() {
    assert_eq!(format_price(u64::MAX), format!("{}.{:02}", u64::MAX / 100, u64::MAX % 100));
}

// ---------------------------------------------------------------------------
// Translations
// ---------------------------------------------------------------------------

#[test]
fn locale_index_chinese_and_default() {
    assert_eq!(locale_index("zh-CN"), 1);
    assert_eq!(locale_index("zh"), 1);
    assert_eq!(locale_index("en"), 0);
    assert_eq!(locale_index("zh-TW"), 0);
    assert_eq!(locale_index(""), 0);
}

#[test]
fn ui_strings_translate_both_locales() {
    let ui = UiStrings::new();
    assert_eq!(ui.translate("ui/tab/cart", "en"), "Cart");
    assert_eq!(ui.translate("ui/tab/cart", "zh-CN"), "购物车");
    assert_eq!(ui.translate("ui/login/title", "zh"), "欢迎来到 ShopFlux");
    assert_eq!(ui.translate("ui/common/loading", "fr"), "Loading...");
}

#[test]
fn ui_strings_unknown_path_is_echoed() {
    let ui = UiStrings::new();
    assert_eq!(ui.translate("ui/unknown", "en"), "ui/unknown");
    assert_eq!(ui.translate("error/stock/insufficient", "zh"), "error/stock/insufficient");
}

#[test]
fn error_strings_translate() {
    let errors = ErrorStrings::new();
    assert_eq!(errors.translate("error/stock/insufficient", "en"), "Insufficient stock");
    assert_eq!(errors.translate("error/order/not_found", "zh-CN"), "订单不存在");
    assert_eq!(errors.translate("ui/tab/cart", "en"), "ui/tab/cart");
}

// ---------------------------------------------------------------------------
// Module and password digests
// ---------------------------------------------------------------------------

fn std_digest(password: &str) -> String {
    let mut hasher = DefaultHasher::new();
    password.hash(&mut hasher);
    format!("{:016x}", hasher.finish())
}

#[test]
fn hash_pw_matches_std_hash() {
    for pw in ["", "password", "秘密", "root"] {
        let d = hash_pw(pw);
        assert_eq!(d, std_digest(pw));
        assert_eq!(d.len(), 16);
        assert!(d.chars().all(|c| c.is_ascii_hexdigit() && !c.is_ascii_uppercase()));
    }
}

#[test]
fn hash_pw_distinguishes_passwords() {
    assert_ne!(hash_pw("alice"), hash_pw("bob"));
    assert_eq!(hash_pw("alice"), hash_pw("alice"));
}

#[test]
fn shop_module_keeps_first_server() {
    let mut m = ShopModule::new();
    assert_eq!(m.name(), "shop");
    assert_eq!(m.server_url(), None);
    m.on_server_ready("http://a:3000");
    m.on_server_ready("http://b:3000");
    assert_eq!(m.server_url(), Some("http://a:3000"));
    let d = ShopModule::default();
    assert_eq!(d.name(), "shop");
    assert_eq!(d.server_url(), None);
}

// ---------------------------------------------------------------------------
// Handler states
// ---------------------------------------------------------------------------

#[test]
fn to_product_item_takes_first_image() {
    let item = to_product_item(&product("p1", vec!["a.png", "b.png"]));
    assert_eq!(item.id, "p1");
    assert_eq!(item.title, "Product p1");
    assert_eq!(item.price, 12999);
    assert_eq!(item.image.as_deref(), Some("a.png"));
    assert_eq!(item.rating, 45);
    assert_eq!(item.shop_name, "Gadget Store");
    let bare = to_product_item(&product("p2", vec![]));
    assert_eq!(bare.image, None);
}

#[test]
fn login_states() {
    let pending = login_pending();
    assert_eq!(pending.phase, AuthPhase::Unauthenticated);
    assert!(pending.busy);
    assert_eq!(pending.error, None);

    let ok = login_succeeded(&LoginResponse {
        access_token: "tok".to_string(),
        user_id: "u1".to_string(),
        role: "admin".to_string(),
    });
    assert_eq!(ok.phase, AuthPhase::Authenticated);
    assert_eq!(ok.user_id.as_deref(), Some("u1"));
    assert_eq!(ok.token.as_deref(), Some("tok"));
    assert_eq!(ok.role.as_deref(), Some("admin"));
    assert!(!ok.busy);

    let failed: AuthState = login_failed("alice");
    assert_eq!(failed.phase, AuthPhase::Unauthenticated);
    assert_eq!(failed.error.as_deref(), Some("Login failed for 'alice'"));
    assert!(!failed.busy);
    assert_eq!(failed.token, None);

    assert_eq!(cleared_on_logout(), vec!["cart/items", "order/list"]);
    let out = logged_out();
    assert_eq!(out.phase, AuthPhase::Unauthenticated);
    assert!(!out.busy);
    assert_eq!(out.user_id, None);
}

#[test]
fn categories_states() {
    let loading = categories_loading();
    assert!(loading.loading && loading.items.is_empty());
    let cats = vec![
        AppCategory { id: "c1".into(), name: "Phones".into(), parent_id: None, sort_order: 1 },
        AppCategory {
            id: "c2".into(),
            name: "Cases".into(),
            parent_id: Some("c1".into()),
            sort_order: 2,
        },
    ];
    let s = categories_loaded(&cats);
    assert!(!s.loading);
    assert_eq!(s.items.len(), 2);
    assert_eq!(s.items[1].id, "c2");
    assert_eq!(s.items[1].parent_id.as_deref(), Some("c1"));
    assert_eq!(s.items[1].sort_order, 2);
}

#[test]
fn catalog_states() {
    let loading = catalog_loading("c1");
    assert_eq!(loading.category_id, "c1");
    assert!(loading.loading && !loading.has_more && loading.items.is_empty());
    let resp = ProductListResponse {
        items: vec![product("p1", vec!["x.png"]), product("p2", vec![])],
        has_more: true,
    };
    let s = catalog_loaded("c1", &resp);
    assert_eq!(s.category_id, "c1");
    assert!(!s.loading && s.has_more);
    assert_eq!(s.items, vec![to_product_item(&resp.items[0]), to_product_item(&resp.items[1])]);
}

#[test]
fn product_detail_copies_everything() {
    let p = product("p9", vec!["1.png", "2.png"]);
    let d = product_detail_of(&p);
    assert_eq!(d.id, "p9");
    assert_eq!(d.description.as_deref(), Some("A thing"));
    assert_eq!(d.images, vec!["1.png".to_string(), "2.png".to_string()]);
    assert_eq!(d.stock, 7);
    assert_eq!(d.review_count, 3);
    assert_eq!(d.shop_id, "shop1");
    assert!(!d.loading);
}

#[test]
fn search_empty_query_asks_nothing() {
    let (s, ask) = search_begin("");
    assert!(!ask);
    assert_eq!(s.query, "");
    assert!(!s.loading && s.items.is_empty());
}

#[test]
fn search_query_loads_then_shows_results() {
    let (s, ask) = search_begin("phone");
    assert!(ask);
    assert_eq!(s.query, "phone");
    assert!(s.loading);
    let resp = ProductListResponse { items: vec![product("p1", vec![])], has_more: false };
    let done = search_loaded("phone", &resp);
    assert_eq!(done.query, "phone");
    assert!(!done.loading);
    assert_eq!(done.items.len(), 1);
    assert_eq!(done.items[0].id, "p1");
}

#[test]
fn cart_states() {
    let loading: CartState = cart_loading();
    assert!(loading.loading && loading.total_amount == 0 && loading.items.is_empty());
    let resp = CartResponse {
        items: vec![AppCartItem {
            id: "ci1".into(),
            product_id: "p1".into(),
            title: "Phone".into(),
            price: 99900,
            image: Some("p.png".into()),
            quantity: 2,
        }],
        total_amount: 199800,
    };
    let s = cart_of(&resp);
    assert!(!s.loading);
    assert_eq!(s.total_amount, 199800);
    assert_eq!(s.items[0].id, "ci1");
    assert_eq!(s.items[0].product_id, "p1");
    assert_eq!(s.items[0].image.as_deref(), Some("p.png"));
    assert_eq!(s.items[0].quantity, 2);
}

#[test]
fn order_states() {
    let detail = AppOrderDetail {
        id: "o1".into(),
        shop_name: "Gadget Store".into(),
        status: "paid".into(),
        total_amount: 5000,
        items: vec![AppOrderItem { product_id: "p1".into(), title: "Case".into(), price: 2500, quantity: 2 }],
        shipping_address: "Beijing".into(),
        paid_at: Some("2024-01-01".into()),
        created_at: "2023-12-31".into(),
    };
    let s = order_detail_of(&detail);
    assert_eq!(s.id, "o1");
    assert_eq!(s.status, "paid");
    assert_eq!(s.items.len(), 1);
    assert_eq!(s.items[0].quantity, 2);
    assert_eq!(s.paid_at.as_deref(), Some("2024-01-01"));
    assert!(!s.loading);

    let loading: OrderListState = order_list_loading();
    assert!(loading.loading && !loading.has_more);
    let list = order_list_of(&OrderListResponse {
        items: vec![AppOrderSummary {
            id: "o1".into(),
            shop_name: "Gadget Store".into(),
            status: "pending_payment".into(),
            total_amount: 5000,
            item_count: 2,
            created_at: "2023-12-31".into(),
        }],
        has_more: false,
    });
    assert!(!list.loading);
    assert_eq!(list.items[0].item_count, 2);
    assert_eq!(list.items[0].status, "pending_payment");
}

#[test]
fn addresses_are_joined() {
    assert!(addresses_loading().loading);
    let s = addresses_of(&vec![AppAddress {
        id: "a1".into(),
        recipient_name: "Li".into(),
        phone: "123".into(),
        province: "浙江省".into(),
        city: "杭州市".into(),
        district: "西湖区".into(),
        detail: "文三路 1 号".into(),
        is_default: true,
    }]);
    assert!(!s.loading);
    assert_eq!(s.items[0].full_address, "浙江省杭州市西湖区 文三路 1 号");
    assert!(s.items[0].is_default);
    assert_eq!(s.items[0].recipient_name, "Li");
}

#[test]
fn payment_reloads_only_on_success() {
    assert!(reload_after_payment(&PaymentResponse { success: true }));
    assert!(!reload_after_payment(&PaymentResponse { success: false }));
}

// ---------------------------------------------------------------------------
// Server calls
// ---------------------------------------------------------------------------

#[test]
fn urls_and_bearer() {
    assert_eq!(app_url("http://localhost:3001", "/cart"), "http://localhost:3001/app/shop/cart");
    assert_eq!(bearer_value("abc"), "Bearer abc");
}

#[test]
fn get_calls() {
    let c = categories_call();
    assert_eq!(c.method, HttpMethod::Get);
    assert_eq!(c.path, "/categories");
    assert!(matches!(c.body, CallBody::Nothing));
    let c = product_detail_call(&LoadProductDetailReq { product_id: "p7".into() });
    assert_eq!(c.path, "/products/p7");
    assert_eq!(c.method, HttpMethod::Get);
    let c = load_order_detail_call(&LoadOrderDetailReq { order_id: "o3".into() });
    assert_eq!(c.path, "/orders/o3");
    assert_eq!(order_detail_call("o4").path, "/orders/o4");
    let c = addresses_call();
    assert_eq!(c.path, "/addresses");
    assert!(matches!(c.body, CallBody::Nothing));
}

#[test]
fn post_and_put_calls() {
    let c = category_products_call(&LoadCategoryProductsReq { category_id: "c1".into() });
    assert_eq!(c.method, HttpMethod::Post);
    assert_eq!(c.path, "/categories/c1/products");
    match c.body {
        CallBody::Page(PaginationParams { limit, offset }) => assert_eq!((limit, offset), (50, 0)),
        _ => panic!("expected a page"),
    }
    let c = search_call(&SearchProductsReq { query: "phone".into() });
    assert_eq!(c.path, "/search");
    assert!(matches!(c.body, CallBody::Search { ref query } if query == "phone"));
    let c = cart_call();
    assert_eq!((c.method, c.path.as_str()), (HttpMethod::Post, "/cart"));
    assert!(matches!(c.body, CallBody::EmptyObject));
    let c = add_to_cart_call(&AddToCartReq { product_id: "p1".into(), quantity: 3 });
    assert_eq!(c.path, "/cart/add");
    assert!(matches!(c.body, CallBody::AddToCart { ref product_id, quantity: 3 } if product_id == "p1"));
    let c = update_cart_call(&UpdateCartReq { item_id: "ci9".into(), quantity: 4 });
    assert_eq!((c.method, c.path.as_str()), (HttpMethod::Put, "/cart/ci9"));
    assert!(matches!(c.body, CallBody::UpdateCart { quantity: 4 }));
    let c = create_order_call(&CreateOrderReq {
        cart_item_ids: vec!["ci1".into(), "ci2".into()],
        address_id: "a1".into(),
    });
    assert_eq!(c.path, "/orders");
    match c.body {
        CallBody::CreateOrder { cart_item_ids, address_id } => {
            assert_eq!(cart_item_ids, vec!["ci1".to_string(), "ci2".to_string()]);
            assert_eq!(address_id, "a1");
        }
        _ => panic!("expected an order"),
    }
    let c = order_list_call();
    assert_eq!(c.path, "/orders/list");
    assert!(matches!(c.body, CallBody::Page(PaginationParams { limit: 50, offset: 0 })));
    let c = pay_order_call(&PayOrderReq { order_id: "o5".into() });
    assert_eq!((c.method, c.path.as_str()), (HttpMethod::Post, "/orders/o5/pay"));
    assert!(matches!(c.body, CallBody::EmptyObject));
}

#[test]
fn format_price_distinguishes_amounts() {
    let mut seen = std::collections::HashSet::new();
    for cents in (0u64..2000).chain([99_999, 100_000, 100_001, u64::MAX - 1, u64::MAX]) {
        assert!(seen.insert(format_price(cents)), "duplicate text for {cents}");
    }
    assert_ne!(format_price(10), format_price(100));
}

// ---------------------------------------------------------------------------
// Handler steps
// ---------------------------------------------------------------------------

use appnut::shop::steps::{shop_answer, shop_begin, Answer, AnswerKind, Exchange, PageState, ShopRequest, StoreWrite};

#[test]
fn login_steps() {
    let req = ShopRequest::Login(appnut::shop::requests::LoginReq {
        username: "alice".into(),
        password: "pw".into(),
    });
    let st = shop_begin(&req);
    assert_eq!(st.writes.len(), 1);
    assert!(matches!(&st.writes[0], StoreWrite::Put(PageState::Auth(a)) if a.busy));
    assert!(matches!(&st.next, Some(Exchange::Login { username, password }) if username == "alice" && password == "pw"));
    let ok = shop_answer(&req, Answer::LoggedIn(LoginResponse {
        access_token: "tok".into(),
        user_id: "u1".into(),
        role: "buyer".into(),
    }));
    assert_eq!(ok.token.as_deref(), Some("tok"));
    assert!(matches!(&ok.writes[0], StoreWrite::Put(PageState::Auth(a)) if a.phase == AuthPhase::Authenticated));
    assert!(ok.next.is_none());
    let refused = shop_answer(&req, Answer::LoginRefused);
    assert!(matches!(&refused.writes[0], StoreWrite::Put(PageState::Auth(a))
        if a.error.as_deref() == Some("Login failed for 'alice'")));
    assert!(refused.token.is_none());
}

#[test]
fn logout_step_writes_then_removes() {
    let st = shop_begin(&ShopRequest::Logout);
    assert_eq!(st.writes.len(), 3);
    assert!(matches!(&st.writes[0], StoreWrite::Put(PageState::Auth(a)) if !a.busy));
    assert!(matches!(st.writes[1], StoreWrite::Remove("cart/items")));
    assert!(matches!(st.writes[2], StoreWrite::Remove("order/list")));
    assert!(st.next.is_none());
}

#[test]
fn loading_steps_then_answers() {
    let st = shop_begin(&ShopRequest::LoadCategories);
    assert!(matches!(&st.writes[0], StoreWrite::Put(PageState::Categories(c)) if c.loading));
    assert!(matches!(&st.next, Some(Exchange::Call(c, AnswerKind::Categories)) if c.path == "/categories"));
    let done = shop_answer(&ShopRequest::LoadCategories, Answer::Categories(vec![]));
    assert!(matches!(&done.writes[0], StoreWrite::Put(PageState::Categories(c)) if !c.loading));
    let nothing = shop_answer(&ShopRequest::LoadCategories, Answer::Nothing);
    assert!(nothing.writes.is_empty() && nothing.next.is_none());
    let wrong = shop_answer(&ShopRequest::LoadCategories, Answer::Cart(CartResponse { items: vec![], total_amount: 0 }));
    assert!(wrong.writes.is_empty() && wrong.next.is_none());
}

#[test]
fn empty_search_asks_nothing() {
    let st = shop_begin(&ShopRequest::SearchProducts(SearchProductsReq { query: String::new() }));
    assert_eq!(st.writes.len(), 1);
    assert!(st.next.is_none());
    let st = shop_begin(&ShopRequest::SearchProducts(SearchProductsReq { query: "phone".into() }));
    assert!(matches!(&st.next, Some(Exchange::Call(c, AnswerKind::Products)) if c.path == "/search"));
}

#[test]
fn payment_then_reload() {
    let req = ShopRequest::PayOrder(PayOrderReq { order_id: "o1".into() });
    let st = shop_begin(&req);
    assert!(st.writes.is_empty());
    assert!(matches!(&st.next, Some(Exchange::Call(c, AnswerKind::Payment)) if c.path == "/orders/o1/pay"));
    let paid = shop_answer(&req, Answer::Payment(PaymentResponse { success: true }));
    assert!(paid.writes.is_empty());
    assert!(matches!(&paid.next, Some(Exchange::Call(c, AnswerKind::Order)) if c.path == "/orders/o1"));
    let failed = shop_answer(&req, Answer::Payment(PaymentResponse { success: false }));
    assert!(failed.writes.is_empty() && failed.next.is_none());
}
