//! ShopFlux translations: UI strings and error messages in English and
//! Simplified Chinese, looked up by path.
use vstd::prelude::*;
use crate::text::{chars_of, same_text};

verus! {

/// The locale column of a locale tag: `zh-CN` and `zh` read Chinese (1),
/// anything else English (0).
pub open spec fn locale_column(locale: Seq<char>) -> int {
    if locale == "zh-CN"@ || locale == "zh"@ {
        1
    } else {
        0
    }
}

/// The locale column of `locale`.
pub fn locale_index(locale: &str) -> (r: usize)
    ensures
        r == locale_column(locale@),
{
    let l = chars_of(locale);
    if same_text(&l, &chars_of("zh-CN")) || same_text(&l, &chars_of("zh")) {
        1
    } else {
        0
    }
}

/// A translation table row: a path with its English and Chinese texts.
pub type Row = (Seq<char>, Seq<char>, Seq<char>);

/// The text a table gives `path` in locale column `col`: the row's text,
/// or the path itself when no row has it.
pub open spec fn translated(table: Seq<Row>, path: Seq<char>, col: int) -> Seq<char>
    decreases table.len(),
{
    if table.len() == 0 {
        path
    } else if table[0].0 == path {
        if col == 1 {
            table[0].2
        } else {
            table[0].1
        }
    } else {
        translated(table.drop_first(), path, col)
    }
}

/// One translation: a path, its English and its Chinese text.
pub struct Translation {
    pub key: &'static str,
    pub en: &'static str,
    pub zh: &'static str,
}

/// The rows a list of translations stands for.
pub open spec fn rows_of(v: Seq<Translation>) -> Seq<Row> {
    v.map_values(|t: Translation| (t.key@, t.en@, t.zh@))
}

fn lookup(data: &Vec<Translation>, path: &str, locale: &str) -> (r: String)
    ensures
        r@ == translated(rows_of(data@), path@, locale_column(locale@)),
{
    let col = locale_index(locale);
    let p = chars_of(path);
    let ghost rows = rows_of(data@);
    let mut i: usize = 0;
    assert(rows.skip(0) =~= rows);
    while i < data.len()
        invariant
            i <= data@.len(),
            rows == rows_of(data@),
            p@ == path@,
            col == locale_column(locale@),
            translated(rows, path@, col as int) == translated(rows.skip(i as int), path@, col as int),
        decreases data@.len() - i,
    {
        let t = &data[i];
        assert(rows.skip(i as int)[0] == (t.key@, t.en@, t.zh@));
        if same_text(&chars_of(t.key), &p) {
            if col == 1 {
                return t.zh.to_owned();
            } else {
                return t.en.to_owned();
            }
        }
        assert(rows.skip(i as int).drop_first() =~= rows.skip(i as int + 1));
        i = i + 1;
    }
    assert(rows.skip(i as int) =~= Seq::<Row>::empty());
    path.to_owned()
}

/// The UI strings under `ui/`.
pub open spec fn ui_rows() -> Seq<Row> {
    seq![
        ("ui/login/title"@, "Welcome to ShopFlux"@, "欢迎来到 ShopFlux"@),
        ("ui/login/button"@, "Sign In"@, "登录"@),
        ("ui/tab/home"@, "Home"@, "首页"@),
        ("ui/tab/categories"@, "Categories"@, "分类"@),
        ("ui/tab/cart"@, "Cart"@, "购物车"@),
        ("ui/tab/orders"@, "Orders"@, "订单"@),
        ("ui/tab/me"@, "Me"@, "我"@),
        ("ui/search/placeholder"@, "Search products..."@, "搜索商品..."@),
        ("ui/cart/empty"@, "Your cart is empty"@, "购物车为空"@),
        ("ui/cart/checkout"@, "Checkout"@, "去结算"@),
        ("ui/order/pay"@, "Pay Now"@, "立即支付"@),
        ("ui/order/status/pending_payment"@, "Pending Payment"@, "待付款"@),
        ("ui/order/status/paid"@, "Paid"@, "已付款"@),
        ("ui/order/status/shipped"@, "Shipped"@, "已发货"@),
        ("ui/order/status/completed"@, "Completed"@, "已完成"@),
        ("ui/order/status/cancelled"@, "Cancelled"@, "已取消"@),
        ("ui/review/write"@, "Write a Review"@, "写评价"@),
        ("ui/address/add"@, "Add Address"@, "添加地址"@),
        ("ui/common/loading"@, "Loading..."@, "加载中..."@),
    ]
}

/// The error messages under `error/`.
pub open spec fn error_rows() -> Seq<Row> {
    seq![
        ("error/auth/missing_token"@, "Missing Authorization header"@, "缺少认证信息"@),
        ("error/auth/invalid_token"@, "Invalid or expired token"@, "无效或过期的令牌"@),
        ("error/auth/user_not_found"@, "User not found"@, "用户不存在"@),
        ("error/product/not_found"@, "Product not found"@, "商品不存在"@),
        ("error/order/not_found"@, "Order not found"@, "订单不存在"@),
        ("error/stock/insufficient"@, "Insufficient stock"@, "库存不足"@),
    ]
}

/// A path that no row has is answered with the path itself, whatever the
/// locale.
pub proof fn law_unknown_path_is_echoed(table: Seq<Row>, path: Seq<char>, col: int)
    requires
        forall|i: int| 0 <= i < table.len() ==> (#[trigger] table[i]).0 != path,
    ensures
        translated(table, path, col) == path,
    decreases table.len(),
{
    if table.len() > 0 {
        assert(table[0].0 != path);
        assert forall|i: int| 0 <= i < table.drop_first().len() implies (
        #[trigger] table.drop_first()[i]).0 != path by {
            assert(table.drop_first()[i] == table[i + 1]);
        }
        law_unknown_path_is_echoed(table.drop_first(), path, col);
    }
}

/// The path of a row is answered with that row's text: the Chinese one in
/// the Chinese column, the English one otherwise.
pub proof fn law_row_path_is_translated(table: Seq<Row>, k: int, col: int)
    requires
        0 <= k < table.len(),
        forall|i: int| 0 <= i < k ==> (#[trigger] table[i]).0 != table[k].0,
    ensures
        translated(table, table[k].0, col) == if col == 1 {
            table[k].2
        } else {
            table[k].1
        },
    decreases k,
{
    if k > 0 {
        assert(table[0].0 != table[k].0);
        assert(table.drop_first()[k - 1] == table[k]);
        assert forall|i: int| 0 <= i < k - 1 implies (#[trigger] table.drop_first()[i]).0 != table.drop_first()[k - 1].0 by {
            assert(table.drop_first()[i] == table[i + 1]);
        }
        law_row_path_is_translated(table.drop_first(), k - 1, col);
    }
}

/// Only the tags `zh-CN` and `zh` read Chinese: every other locale,
/// whatever its text, reads English.
pub proof fn law_locale_column(locale: Seq<char>)
    ensures
        locale == "zh-CN"@ ==> locale_column(locale) == 1,
        locale == "zh"@ ==> locale_column(locale) == 1,
        locale != "zh-CN"@ && locale != "zh"@ ==> locale_column(locale) == 0,
{
}

/// In any locale other than `zh-CN` and `zh`, the path of a row is
/// answered with that row's English text.
pub proof fn law_other_locales_read_english(table: Seq<Row>, k: int, locale: Seq<char>)
    requires
        0 <= k < table.len(),
        forall|i: int| 0 <= i < k ==> (#[trigger] table[i]).0 != table[k].0,
        locale != "zh-CN"@,
        locale != "zh"@,
    ensures
        translated(table, table[k].0, locale_column(locale)) == table[k].1,
{
    law_locale_column(locale);
    law_row_path_is_translated(table, k, locale_column(locale));
}

/// In the locales `zh-CN` and `zh`, the path of a row is answered with that
/// row's Chinese text.
pub proof fn law_chinese_locales_read_chinese(table: Seq<Row>, k: int, locale: Seq<char>)
    requires
        0 <= k < table.len(),
        forall|i: int| 0 <= i < k ==> (#[trigger] table[i]).0 != table[k].0,
        locale == "zh-CN"@ || locale == "zh"@,
    ensures
        translated(table, table[k].0, locale_column(locale)) == table[k].2,
{
    law_locale_column(locale);
    law_row_path_is_translated(table, k, locale_column(locale));
}

fn row(key: &'static str, en: &'static str, zh: &'static str) -> (t: Translation)
    ensures
        t.key == key,
        t.en == en,
        t.zh == zh,
{
    Translation { key, en, zh }
}

/// The UI strings.
pub struct UiStrings {
    data: Vec<Translation>,
}

impl UiStrings {
    /// The table's rows.
    pub closed spec fn rows(&self) -> Seq<Row> {
        rows_of(self.data@)
    }

    /// The ShopFlux UI strings.
    pub fn new() -> (s: Self)
        ensures
            s.rows() == ui_rows(),
    {
        let mut m: Vec<Translation> = Vec::new();
        m.push(row("ui/login/title", "Welcome to ShopFlux", "欢迎来到 ShopFlux"));
        m.push(row("ui/login/button", "Sign In", "登录"));
        m.push(row("ui/tab/home", "Home", "首页"));
        m.push(row("ui/tab/categories", "Categories", "分类"));
        m.push(row("ui/tab/cart", "Cart", "购物车"));
        m.push(row("ui/tab/orders", "Orders", "订单"));
        m.push(row("ui/tab/me", "Me", "我"));
        m.push(row("ui/search/placeholder", "Search products...", "搜索商品..."));
        m.push(row("ui/cart/empty", "Your cart is empty", "购物车为空"));
        m.push(row("ui/cart/checkout", "Checkout", "去结算"));
        m.push(row("ui/order/pay", "Pay Now", "立即支付"));
        m.push(row("ui/order/status/pending_payment", "Pending Payment", "待付款"));
        m.push(row("ui/order/status/paid", "Paid", "已付款"));
        m.push(row("ui/order/status/shipped", "Shipped", "已发货"));
        m.push(row("ui/order/status/completed", "Completed", "已完成"));
        m.push(row("ui/order/status/cancelled", "Cancelled", "已取消"));
        m.push(row("ui/review/write", "Write a Review", "写评价"));
        m.push(row("ui/address/add", "Add Address", "添加地址"));
        m.push(row("ui/common/loading", "Loading...", "加载中..."));
        let s = UiStrings { data: m };
        assert(s.rows() =~= ui_rows());
        s
    }

    /// The text of `path` in `locale`, or `path` itself if there is none.
    pub fn translate(&self, path: &str, locale: &str) -> (r: String)
        ensures
            r@ == translated(self.rows(), path@, locale_column(locale@)),
    {
        lookup(&self.data, path, locale)
    }
}

/// The error messages.
pub struct ErrorStrings {
    data: Vec<Translation>,
}

impl ErrorStrings {
    /// The table's rows.
    pub closed spec fn rows(&self) -> Seq<Row> {
        rows_of(self.data@)
    }

    /// The ShopFlux error messages.
    pub fn new() -> (s: Self)
        ensures
            s.rows() == error_rows(),
    {
        let mut m: Vec<Translation> = Vec::new();
        m.push(row("error/auth/missing_token", "Missing Authorization header", "缺少认证信息"));
        m.push(row("error/auth/invalid_token", "Invalid or expired token", "无效或过期的令牌"));
        m.push(row("error/auth/user_not_found", "User not found", "用户不存在"));
        m.push(row("error/product/not_found", "Product not found", "商品不存在"));
        m.push(row("error/order/not_found", "Order not found", "订单不存在"));
        m.push(row("error/stock/insufficient", "Insufficient stock", "库存不足"));
        let s = ErrorStrings { data: m };
        assert(s.rows() =~= error_rows());
        s
    }

    /// The text of `path` in `locale`, or `path` itself if there is none.
    pub fn translate(&self, path: &str, locale: &str) -> (r: String)
        ensures
            r@ == translated(self.rows(), path@, locale_column(locale@)),
    {
        lookup(&self.data, path, locale)
    }
}

} // verus!
