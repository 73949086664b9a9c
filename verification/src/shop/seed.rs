//! The ShopFlux demo data: four users, two shops, four categories, six
//! products and two addresses, and, for the embedded server, one completed
//! order with its review. Records refer to each other by position; the
//! counts the records carry (products per shop, reviews per product, order
//! totals) are counted from the records they count, so they stay in step.
use vstd::prelude::*;
use crate::digest::password_digest;
use crate::format::push_char;
use crate::shop::module::hash_pw;
use crate::text::{chars_of, concat2, concat3};

verus! {

/// The resource name of user `username`: `shop/users/{username}`.
pub open spec fn shop_user_path(username: Seq<char>) -> Seq<char> {
    "shop/users/"@ + username
}

/// The resource name of user `username`.
pub fn shop_user_resource(username: &str) -> (r: String)
    ensures
        r@ == shop_user_path(username@),
{
    concat2("shop/users/", username)
}

/// The character a product title contributes to its image seed: a space
/// becomes `_` and an ASCII capital its small letter (for ASCII titles,
/// what `replace(' ', "_")` and `to_lowercase` give).
pub open spec fn seed_char(c: char) -> char {
    if c == ' ' {
        '_'
    } else if 'A' <= c <= 'Z' {
        ((c as u32) + 32) as char
    } else {
        c
    }
}

/// The image list of a demo product: a JSON array with one picsum photo
/// seeded by the title.
pub open spec fn image_list(title: Seq<char>) -> Seq<char> {
    "[\"https://picsum.photos/seed/"@ + title.map_values(|c: char| seed_char(c)) + "/400\"]"@
}

fn seed_of(c: char) -> (r: char)
    ensures
        r == seed_char(c),
{
    if c == ' ' {
        '_'
    } else if 'A' <= c && c <= 'Z' {
        ((c as u8) + 32) as char
    } else {
        c
    }
}

/// The image list of a demo product titled `title`.
pub fn image_list_for(title: &str) -> (r: String)
    ensures
        r@ == image_list(title@),
{
    let chars = chars_of(title);
    let mut seed = String::new();
    let mut i: usize = 0;
    assert(seed@ =~= title@.take(0).map_values(|c: char| seed_char(c)));
    while i < chars.len()
        invariant
            i <= chars@.len(),
            chars@ == title@,
            seed@ == title@.take(i as int).map_values(|c: char| seed_char(c)),
        decreases chars@.len() - i,
    {
        push_char(&mut seed, seed_of(chars[i]));
        assert(seed@ =~= title@.take(i as int + 1).map_values(|c: char| seed_char(c)));
        i = i + 1;
    }
    assert(title@.take(i as int) =~= title@);
    concat3("[\"https://picsum.photos/seed/", seed.as_str(), "/400\"]")
}

/// A demo user.
pub struct SeedShopUser {
    pub username: String,
    pub display_name: String,
    /// `buyer` or `seller`.
    pub role: String,
    pub password_hash: String,
    pub avatar: String,
    /// `@{username}`.
    pub description: String,
}

/// A demo shop.
pub struct SeedShop {
    /// The owner's resource name.
    pub owner: String,
    pub name: String,
    pub shop_description: String,
    pub rating: u32,
    pub product_count: u32,
}

/// A demo category, named in English and Simplified Chinese.
pub struct SeedCategory {
    pub name_en: String,
    pub name_zh_cn: String,
    /// The position of the parent category.
    pub parent: Option<usize>,
    pub sort_order: u32,
}

/// A demo product.
pub struct SeedProduct {
    /// The position of the shop selling it.
    pub shop: usize,
    /// The position of its category.
    pub category: usize,
    pub title: String,
    pub description: String,
    /// In cents.
    pub price: u64,
    pub stock: u32,
    /// A JSON array of image URLs.
    pub images: String,
    pub rating: u32,
    pub review_count: u32,
    pub status: String,
}

/// A demo address.
pub struct SeedAddress {
    /// The resource name of the user it belongs to.
    pub user: String,
    pub recipient_name: String,
    pub phone: String,
    pub province: String,
    pub city: String,
    pub district: String,
    pub detail: String,
    pub is_default: bool,
}

/// A line of a demo order.
pub struct SeedOrderLine {
    /// The position of the product bought.
    pub product: usize,
    pub title: String,
    pub price: u64,
    pub quantity: u32,
}

/// A demo order.
pub struct SeedOrder {
    /// The buyer's resource name.
    pub buyer: String,
    /// The position of the shop sold from.
    pub shop: usize,
    pub status: String,
    pub total_amount: u64,
    /// The shipping address as a JSON object.
    pub shipping_address: String,
    pub lines: Vec<SeedOrderLine>,
    pub paid_at: Option<String>,
}

/// A demo review.
pub struct SeedReview {
    /// The resource name of the user who wrote it.
    pub user: String,
    /// The position of the product reviewed.
    pub product: usize,
    /// The position of the order it was bought in.
    pub order: usize,
    pub rating: u32,
    pub content: String,
}

/// The ShopFlux demo data.
pub struct ShopSeed {
    pub users: Vec<SeedShopUser>,
    pub shops: Vec<SeedShop>,
    pub categories: Vec<SeedCategory>,
    pub products: Vec<SeedProduct>,
    pub addresses: Vec<SeedAddress>,
    pub orders: Vec<SeedOrder>,
    pub reviews: Vec<SeedReview>,
}

/// The number of products in `products` sold by shop `shop`.
pub open spec fn products_in(products: Seq<SeedProduct>, shop: int) -> nat
    decreases products.len(),
{
    if products.len() == 0 {
        0
    } else {
        products_in(products.drop_last(), shop) + if products.last().shop == shop {
            1nat
        } else {
            0nat
        }
    }
}

/// The number of reviews in `reviews` of product `product`.
pub open spec fn reviews_of(reviews: Seq<SeedReview>, product: int) -> nat
    decreases reviews.len(),
{
    if reviews.len() == 0 {
        0
    } else {
        reviews_of(reviews.drop_last(), product) + if reviews.last().product == product {
            1nat
        } else {
            0nat
        }
    }
}

/// What the lines of an order come to: price times quantity, summed.
pub open spec fn lines_total(lines: Seq<SeedOrderLine>) -> nat
    decreases lines.len(),
{
    if lines.len() == 0 {
        0
    } else {
        lines_total(lines.drop_last()) + (lines.last().price as nat) * (lines.last().quantity as nat)
    }
}

/// Whether `path` is the resource name of one of `users`.
pub open spec fn names_a_user(users: Seq<SeedShopUser>, path: Seq<char>) -> bool {
    exists|i: int| 0 <= i < users.len() && path == shop_user_path(#[trigger] users[i].username@)
}

/// The demo data keeps its counts and references in step: every position
/// refers to an existing record (a category's parent comes before it),
/// every resource name to a demo user; each shop's product count is the
/// number of products it sells, each product's review count the number of
/// its reviews, and a product without reviews is unrated; each order's
/// total is what its lines come to; each product's images are seeded by
/// its title; and every user's password is the digest of `password`.
pub open spec fn shop_seed_consistent(s: ShopSeed) -> bool {
    &&& forall|i: int|
        0 <= i < s.users@.len() ==> (#[trigger] s.users@[i]).password_hash@ == password_digest(
            "password",
        ) && s.users@[i].description@ == "@"@ + s.users@[i].username@
    &&& forall|k: int|
        0 <= k < s.shops@.len() ==> names_a_user(s.users@, (#[trigger] s.shops@[k]).owner@)
            && s.shops@[k].product_count == products_in(s.products@, k)
    &&& forall|c: int|
        0 <= c < s.categories@.len() ==> ((#[trigger] s.categories@[c]).parent matches Some(p)
            ==> p < c)
    &&& forall|p: int|
        0 <= p < s.products@.len() ==> {
            let q = #[trigger] s.products@[p];
            &&& q.shop < s.shops@.len()
            &&& q.category < s.categories@.len()
            &&& q.review_count == reviews_of(s.reviews@, p)
            &&& q.review_count == 0 ==> q.rating == 0
            &&& q.images@ == image_list(q.title@)
        }
    &&& forall|a: int| 0 <= a < s.addresses@.len() ==> names_a_user(s.users@, (#[trigger] s.addresses@[a]).user@)
    &&& forall|o: int|
        0 <= o < s.orders@.len() ==> {
            let ord = #[trigger] s.orders@[o];
            &&& names_a_user(s.users@, ord.buyer@)
            &&& ord.shop < s.shops@.len()
            &&& ord.total_amount == lines_total(ord.lines@)
            &&& forall|l: int| 0 <= l < ord.lines@.len() ==> #[trigger] ord.lines@[l].product < s.products@.len()
        }
    &&& forall|r: int|
        0 <= r < s.reviews@.len() ==> {
            let rv = #[trigger] s.reviews@[r];
            &&& names_a_user(s.users@, rv.user@)
            &&& rv.product < s.products@.len()
            &&& rv.order < s.orders@.len()
        }
}

proof fn lemma_products_in_bound(products: Seq<SeedProduct>, shop: int)
    ensures
        products_in(products, shop) <= products.len(),
    decreases products.len(),
{
    if products.len() > 0 {
        lemma_products_in_bound(products.drop_last(), shop);
    }
}

proof fn lemma_reviews_of_bound(reviews: Seq<SeedReview>, product: int)
    ensures
        reviews_of(reviews, product) <= reviews.len(),
    decreases reviews.len(),
{
    if reviews.len() > 0 {
        lemma_reviews_of_bound(reviews.drop_last(), product);
    }
}

/// The number of products in `products` sold by shop `shop`.
pub fn count_products_in(products: &Vec<SeedProduct>, shop: usize) -> (n: u32)
    requires
        products@.len() <= u32::MAX,
    ensures
        n == products_in(products@, shop as int),
{
    let mut n: u32 = 0;
    let mut i: usize = 0;
    while i < products.len()
        invariant
            i <= products@.len(),
            products@.len() <= u32::MAX,
            n == products_in(products@.take(i as int), shop as int),
        decreases products@.len() - i,
    {
        proof {
            lemma_products_in_bound(products@.take(i as int), shop as int);
            assert(products@.take(i as int + 1).drop_last() =~= products@.take(i as int));
        }
        if products[i].shop == shop {
            n = n + 1;
        }
        i = i + 1;
    }
    assert(products@.take(i as int) =~= products@);
    n
}

/// The number of reviews in `reviews` of product `product`.
pub fn count_reviews_of(reviews: &Vec<SeedReview>, product: usize) -> (n: u32)
    requires
        reviews@.len() <= u32::MAX,
    ensures
        n == reviews_of(reviews@, product as int),
{
    let mut n: u32 = 0;
    let mut i: usize = 0;
    while i < reviews.len()
        invariant
            i <= reviews@.len(),
            reviews@.len() <= u32::MAX,
            n == reviews_of(reviews@.take(i as int), product as int),
        decreases reviews@.len() - i,
    {
        proof {
            lemma_reviews_of_bound(reviews@.take(i as int), product as int);
            assert(reviews@.take(i as int + 1).drop_last() =~= reviews@.take(i as int));
        }
        if reviews[i].product == product {
            n = n + 1;
        }
        i = i + 1;
    }
    assert(reviews@.take(i as int) =~= reviews@);
    n
}

proof fn lemma_lines_total_prefix(lines: Seq<SeedOrderLine>, i: int)
    requires
        0 <= i <= lines.len(),
    ensures
        lines_total(lines.take(i)) <= lines_total(lines),
    decreases lines.len() - i,
{
    if i < lines.len() {
        lemma_lines_total_prefix(lines, i + 1);
        let t = lines.take(i + 1);
        assert(t.drop_last() =~= lines.take(i));
        let p = t.last().price as nat;
        let q = t.last().quantity as nat;
        assert(p * q >= 0) by (nonlinear_arith);
    } else {
        assert(lines.take(i) =~= lines);
    }
}

/// What the lines of an order come to.
pub fn order_total(lines: &Vec<SeedOrderLine>) -> (t: u64)
    requires
        lines_total(lines@) <= u64::MAX,
    ensures
        t == lines_total(lines@),
{
    let mut t: u64 = 0;
    let mut i: usize = 0;
    while i < lines.len()
        invariant
            i <= lines@.len(),
            lines_total(lines@) <= u64::MAX,
            t == lines_total(lines@.take(i as int)),
        decreases lines@.len() - i,
    {
        proof {
            lemma_lines_total_prefix(lines@, i as int + 1);
            assert(lines@.take(i as int + 1).drop_last() =~= lines@.take(i as int));
            let p = lines@[i as int].price as nat;
            let q = lines@[i as int].quantity as nat;
            assert(p * q >= 0) by (nonlinear_arith);
        }
        let line = &lines[i];
        t = t + line.price * (line.quantity as u64);
        i = i + 1;
    }
    assert(lines@.take(i as int) =~= lines@);
    t
}

/// `u` is the demo user `username`, named `display`, with role `role`
/// and the dicebear avatar of its username.
pub open spec fn user_record(u: SeedShopUser, username: Seq<char>, display: Seq<char>, role: Seq<char>) -> bool {
    &&& u.username@ == username
    &&& u.display_name@ == display
    &&& u.role@ == role
    &&& u.avatar@ == "https://api.dicebear.com/7.x/initials/svg?seed="@ + username
}

/// `s` is the shop of user `owner` named `name`.
pub open spec fn shop_record(s: SeedShop, owner: Seq<char>, name: Seq<char>, description: Seq<char>, rating: u32) -> bool {
    &&& s.owner@ == shop_user_path(owner)
    &&& s.name@ == name
    &&& s.shop_description@ == description
    &&& s.rating == rating
}

/// `c` is the category named `en` / `zh_cn`.
pub open spec fn category_record(
    c: SeedCategory,
    en: Seq<char>,
    zh_cn: Seq<char>,
    parent: Option<usize>,
    sort_order: u32,
) -> bool {
    &&& c.name_en@ == en
    &&& c.name_zh_cn@ == zh_cn
    &&& c.parent == parent
    &&& c.sort_order == sort_order
}

/// `p` is the product `title` on sale by shop `shop` in category
/// `category`.
pub open spec fn product_record(
    p: SeedProduct,
    shop: usize,
    category: usize,
    title: Seq<char>,
    description: Seq<char>,
    price: u64,
    stock: u32,
) -> bool {
    &&& p.shop == shop
    &&& p.category == category
    &&& p.title@ == title
    &&& p.description@ == description
    &&& p.price == price
    &&& p.stock == stock
    &&& p.status@ == "on_sale"@
}

/// `a` is the default address of user `username`.
pub open spec fn address_record(
    a: SeedAddress,
    username: Seq<char>,
    recipient: Seq<char>,
    phone: Seq<char>,
    province: Seq<char>,
    city: Seq<char>,
    district: Seq<char>,
    detail: Seq<char>,
) -> bool {
    &&& a.user@ == shop_user_path(username)
    &&& a.recipient_name@ == recipient
    &&& a.phone@ == phone
    &&& a.province@ == province
    &&& a.city@ == city
    &&& a.district@ == district
    &&& a.detail@ == detail
    &&& a.is_default
}

/// The catalogue records: the users alice, bob, carol and dave; bob's and
/// carol's shops; the four categories; the six products (the phone with
/// `phone_stock` in stock); alice's and dave's addresses.
pub open spec fn catalog_records(s: ShopSeed, phone_stock: u32) -> bool {
    &&& s.users@.len() == 4
    &&& user_record(s.users@[0], "alice"@, "Alice Wang"@, "buyer"@)
    &&& user_record(s.users@[1], "bob"@, "Bob Li"@, "seller"@)
    &&& user_record(s.users@[2], "carol"@, "Carol Zhang"@, "seller"@)
    &&& user_record(s.users@[3], "dave"@, "Dave Chen"@, "buyer"@)
    &&& s.shops@.len() == 2
    &&& shop_record(s.shops@[0], "bob"@, "Bob's Electronics"@, "Quality electronics and gadgets"@, 45)
    &&& shop_record(s.shops@[1], "carol"@, "Carol's Fashion"@, "Trendy fashion and accessories"@, 48)
    &&& s.categories@.len() == 4
    &&& category_record(s.categories@[0], "Electronics"@, "电子产品"@, None, 1)
    &&& category_record(s.categories@[1], "Phones"@, "手机"@, Some(0usize), 2)
    &&& category_record(s.categories@[2], "Clothing"@, "服装"@, None, 3)
    &&& category_record(s.categories@[3], "Accessories"@, "配饰"@, Some(2usize), 4)
    &&& s.products@.len() == 6
    &&& product_record(
        s.products@[0],
        0,
        1,
        "Rust Phone Pro"@,
        "Latest smartphone with Rust-powered firmware"@,
        99900,
        phone_stock,
    )
    &&& product_record(
        s.products@[1],
        0,
        0,
        "USB-C Hub 7-in-1"@,
        "Premium USB-C hub with HDMI, USB-A, SD card"@,
        4999,
        200,
    )
    &&& product_record(
        s.products@[2],
        0,
        0,
        "Mechanical Keyboard"@,
        "Cherry MX Blue switches, RGB backlight"@,
        12999,
        100,
    )
    &&& product_record(s.products@[3], 1, 2, "Silk Scarf"@, "100% mulberry silk, hand-rolled edges"@, 8999, 30)
    &&& product_record(s.products@[4], 1, 2, "Leather Tote Bag"@, "Full-grain leather, handmade"@, 25999, 15)
    &&& product_record(s.products@[5], 1, 2, "Cashmere Sweater"@, "Premium cashmere, ribbed collar"@, 19999, 25)
    &&& s.addresses@.len() == 2
    &&& address_record(
        s.addresses@[0],
        "alice"@,
        "Alice Wang"@,
        "13800138001"@,
        "Beijing"@,
        "Beijing"@,
        "Haidian"@,
        "Zhongguancun Software Park, Building 8"@,
    )
    &&& address_record(
        s.addresses@[1],
        "dave"@,
        "Dave Chen"@,
        "13900139001"@,
        "Shanghai"@,
        "Shanghai"@,
        "Pudong"@,
        "Lujiazui Financial Center, Tower 2"@,
    )
}

fn shop_user(username: &str, display: &str, role: &str) -> (u: SeedShopUser)
    ensures
        user_record(u, username@, display@, role@),
        u.password_hash@ == password_digest("password"),
        u.description@ == "@"@ + username@,
{
    SeedShopUser {
        username: username.to_owned(),
        display_name: display.to_owned(),
        role: role.to_owned(),
        password_hash: hash_pw("password"),
        avatar: concat2("https://api.dicebear.com/7.x/initials/svg?seed=", username),
        description: concat2("@", username),
    }
}

fn seed_users() -> (v: Vec<SeedShopUser>)
    ensures
        v@.len() == 4,
        user_record(v@[0], "alice"@, "Alice Wang"@, "buyer"@),
        user_record(v@[1], "bob"@, "Bob Li"@, "seller"@),
        user_record(v@[2], "carol"@, "Carol Zhang"@, "seller"@),
        user_record(v@[3], "dave"@, "Dave Chen"@, "buyer"@),
        forall|i: int|
            0 <= i < v@.len() ==> (#[trigger] v@[i]).password_hash@ == password_digest("password")
                && v@[i].description@ == "@"@ + v@[i].username@,
{
    let mut v: Vec<SeedShopUser> = Vec::new();
    v.push(shop_user("alice", "Alice Wang", "buyer"));
    v.push(shop_user("bob", "Bob Li", "seller"));
    v.push(shop_user("carol", "Carol Zhang", "seller"));
    v.push(shop_user("dave", "Dave Chen", "buyer"));
    v
}

fn category(en: &str, zh_cn: &str, parent: Option<usize>, sort_order: u32) -> (c: SeedCategory)
    ensures
        category_record(c, en@, zh_cn@, parent, sort_order),
{
    SeedCategory { name_en: en.to_owned(), name_zh_cn: zh_cn.to_owned(), parent, sort_order }
}

fn seed_categories() -> (v: Vec<SeedCategory>)
    ensures
        v@.len() == 4,
        forall|c: int| 0 <= c < v@.len() ==> ((#[trigger] v@[c]).parent matches Some(p) ==> p < c),
        category_record(v@[0], "Electronics"@, "电子产品"@, None, 1),
        category_record(v@[1], "Phones"@, "手机"@, Some(0usize), 2),
        category_record(v@[2], "Clothing"@, "服装"@, None, 3),
        category_record(v@[3], "Accessories"@, "配饰"@, Some(2usize), 4),
{
    let mut v: Vec<SeedCategory> = Vec::new();
    v.push(category("Electronics", "电子产品", None, 1));
    v.push(category("Phones", "手机", Some(0), 2));
    v.push(category("Clothing", "服装", None, 3));
    v.push(category("Accessories", "配饰", Some(2), 4));
    v
}

fn product(
    reviews: &Vec<SeedReview>,
    index: usize,
    shop: usize,
    category: usize,
    title: &str,
    description: &str,
    price: u64,
    stock: u32,
    rating: u32,
) -> (p: SeedProduct)
    requires
        reviews@.len() <= u32::MAX,
    ensures
        product_record(p, shop, category, title@, description@, price, stock),
        p.images@ == image_list(title@),
        p.review_count == reviews_of(reviews@, index as int),
        p.rating == (if p.review_count == 0 { 0 } else { rating }),
{
    let review_count = count_reviews_of(reviews, index);
    SeedProduct {
        shop,
        category,
        title: title.to_owned(),
        description: description.to_owned(),
        price,
        stock,
        images: image_list_for(title),
        rating: if review_count == 0 { 0 } else { rating },
        review_count,
        status: "on_sale".to_owned(),
    }
}

/// The six products: three electronics from the first shop, three fashion
/// items from the second. The phone has sold `phone_sold` of its 50 and is
/// rated `phone_rating` by its reviews, if it has any.
fn seed_products(reviews: &Vec<SeedReview>, phone_sold: u32, phone_rating: u32) -> (v: Vec<
    SeedProduct,
>)
    requires
        reviews@.len() <= u32::MAX,
        phone_sold <= 50,
    ensures
        v@.len() == 6,
        product_record(
            v@[0],
            0,
            1,
            "Rust Phone Pro"@,
            "Latest smartphone with Rust-powered firmware"@,
            99900,
            (50 - phone_sold) as u32,
        ),
        product_record(
            v@[1],
            0,
            0,
            "USB-C Hub 7-in-1"@,
            "Premium USB-C hub with HDMI, USB-A, SD card"@,
            4999,
            200,
        ),
        product_record(
            v@[2],
            0,
            0,
            "Mechanical Keyboard"@,
            "Cherry MX Blue switches, RGB backlight"@,
            12999,
            100,
        ),
        product_record(v@[3], 1, 2, "Silk Scarf"@, "100% mulberry silk, hand-rolled edges"@, 8999, 30),
        product_record(v@[4], 1, 2, "Leather Tote Bag"@, "Full-grain leather, handmade"@, 25999, 15),
        product_record(v@[5], 1, 2, "Cashmere Sweater"@, "Premium cashmere, ribbed collar"@, 19999, 25),
        v@[0].review_count > 0 ==> v@[0].rating == phone_rating,
        forall|p: int|
            0 <= p < v@.len() ==> {
                let q = #[trigger] v@[p];
                &&& q.shop < 2
                &&& q.category < 4
                &&& q.review_count == reviews_of(reviews@, p)
                &&& q.review_count == 0 ==> q.rating == 0
                &&& q.images@ == image_list(q.title@)
            },
        forall|p: int| 0 <= p < 3 ==> (#[trigger] v@[p]).shop == 0,
        forall|p: int| 3 <= p < 6 ==> (#[trigger] v@[p]).shop == 1,
{
    let mut v: Vec<SeedProduct> = Vec::new();
    v.push(
        product(
            reviews,
            0,
            0,
            1,
            "Rust Phone Pro",
            "Latest smartphone with Rust-powered firmware",
            99900,
            50 - phone_sold,
            phone_rating,
        ),
    );
    v.push(
        product(reviews, 1, 0, 0, "USB-C Hub 7-in-1", "Premium USB-C hub with HDMI, USB-A, SD card", 4999, 200, 0),
    );
    v.push(product(reviews, 2, 0, 0, "Mechanical Keyboard", "Cherry MX Blue switches, RGB backlight", 12999, 100, 0));
    v.push(product(reviews, 3, 1, 2, "Silk Scarf", "100% mulberry silk, hand-rolled edges", 8999, 30, 0));
    v.push(product(reviews, 4, 1, 2, "Leather Tote Bag", "Full-grain leather, handmade", 25999, 15, 0));
    v.push(product(reviews, 5, 1, 2, "Cashmere Sweater", "Premium cashmere, ribbed collar", 19999, 25, 0));
    v
}

fn seed_shops(products: &Vec<SeedProduct>) -> (v: Vec<SeedShop>)
    requires
        products@.len() <= u32::MAX,
    ensures
        v@.len() == 2,
        shop_record(v@[0], "bob"@, "Bob's Electronics"@, "Quality electronics and gadgets"@, 45),
        shop_record(v@[1], "carol"@, "Carol's Fashion"@, "Trendy fashion and accessories"@, 48),
        forall|k: int| 0 <= k < v@.len() ==> (#[trigger] v@[k]).product_count == products_in(products@, k),
{
    let mut v: Vec<SeedShop> = Vec::new();
    v.push(
        SeedShop {
            owner: shop_user_resource("bob"),
            name: "Bob's Electronics".to_owned(),
            shop_description: "Quality electronics and gadgets".to_owned(),
            rating: 45,
            product_count: count_products_in(products, 0),
        },
    );
    v.push(
        SeedShop {
            owner: shop_user_resource("carol"),
            name: "Carol's Fashion".to_owned(),
            shop_description: "Trendy fashion and accessories".to_owned(),
            rating: 48,
            product_count: count_products_in(products, 1),
        },
    );
    v
}

fn address(
    username: &str,
    recipient: &str,
    phone: &str,
    province: &str,
    city: &str,
    district: &str,
    detail: &str,
) -> (a: SeedAddress)
    ensures
        address_record(a, username@, recipient@, phone@, province@, city@, district@, detail@),
{
    SeedAddress {
        user: shop_user_resource(username),
        recipient_name: recipient.to_owned(),
        phone: phone.to_owned(),
        province: province.to_owned(),
        city: city.to_owned(),
        district: district.to_owned(),
        detail: detail.to_owned(),
        is_default: true,
    }
}

fn seed_addresses() -> (v: Vec<SeedAddress>)
    ensures
        v@.len() == 2,
        address_record(
            v@[0],
            "alice"@,
            "Alice Wang"@,
            "13800138001"@,
            "Beijing"@,
            "Beijing"@,
            "Haidian"@,
            "Zhongguancun Software Park, Building 8"@,
        ),
        address_record(
            v@[1],
            "dave"@,
            "Dave Chen"@,
            "13900139001"@,
            "Shanghai"@,
            "Shanghai"@,
            "Pudong"@,
            "Lujiazui Financial Center, Tower 2"@,
        ),
{
    let mut v: Vec<SeedAddress> = Vec::new();
    v.push(
        address(
            "alice",
            "Alice Wang",
            "13800138001",
            "Beijing",
            "Beijing",
            "Haidian",
            "Zhongguancun Software Park, Building 8",
        ),
    );
    v.push(
        address(
            "dave",
            "Dave Chen",
            "13900139001",
            "Shanghai",
            "Shanghai",
            "Pudong",
            "Lujiazui Financial Center, Tower 2",
        ),
    );
    v
}

proof fn lemma_products_in_step(products: Seq<SeedProduct>, prev: Seq<SeedProduct>, next: Seq<SeedProduct>, k: int)
    requires
        0 <= k < products.len(),
        prev == products.take(k),
        next == products.take(k + 1),
    ensures
        products_in(next, 0) == products_in(prev, 0) + if products[k].shop == 0 {
            1nat
        } else {
            0nat
        },
        products_in(next, 1) == products_in(prev, 1) + if products[k].shop == 1 {
            1nat
        } else {
            0nat
        },
{
    assert(next.drop_last() =~= prev);
    assert(next.last() == products[k]);
}

proof fn lemma_three_products_each(products: Seq<SeedProduct>)
    requires
        products.len() == 6,
        forall|p: int| 0 <= p < 3 ==> (#[trigger] products[p]).shop == 0,
        forall|p: int| 3 <= p < 6 ==> (#[trigger] products[p]).shop == 1,
    ensures
        products_in(products, 0) == 3,
        products_in(products, 1) == 3,
{
    assert(products.take(0) =~= Seq::<SeedProduct>::empty());
    lemma_products_in_step(products, products.take(0), products.take(1), 0);
    lemma_products_in_step(products, products.take(1), products.take(2), 1);
    lemma_products_in_step(products, products.take(2), products.take(3), 2);
    lemma_products_in_step(products, products.take(3), products.take(4), 3);
    lemma_products_in_step(products, products.take(4), products.take(5), 4);
    lemma_products_in_step(products, products.take(5), products.take(6), 5);
    assert(products[0].shop == 0 && products[1].shop == 0 && products[2].shop == 0);
    assert(products[3].shop == 1 && products[4].shop == 1 && products[5].shop == 1);
    assert(products_in(products.take(0), 0) == 0 && products_in(products.take(0), 1) == 0);
    assert(products_in(products.take(1), 0) == 1 && products_in(products.take(1), 1) == 0);
    assert(products_in(products.take(2), 0) == 2 && products_in(products.take(2), 1) == 0);
    assert(products_in(products.take(3), 0) == 3 && products_in(products.take(3), 1) == 0);
    assert(products_in(products.take(4), 0) == 3 && products_in(products.take(4), 1) == 1);
    assert(products_in(products.take(5), 0) == 3 && products_in(products.take(5), 1) == 2);
    assert(products_in(products.take(6), 0) == 3 && products_in(products.take(6), 1) == 3);
    assert(products.take(6) =~= products);
}

proof fn lemma_users_named(users: Seq<SeedShopUser>)
    requires
        users.len() == 4,
        users[0].username@ == "alice"@,
        users[1].username@ == "bob"@,
        users[2].username@ == "carol"@,
        users[3].username@ == "dave"@,
    ensures
        names_a_user(users, shop_user_path("alice"@)),
        names_a_user(users, shop_user_path("bob"@)),
        names_a_user(users, shop_user_path("carol"@)),
        names_a_user(users, shop_user_path("dave"@)),
{
    assert(shop_user_path("alice"@) == shop_user_path(users[0].username@));
    assert(shop_user_path("bob"@) == shop_user_path(users[1].username@));
    assert(shop_user_path("carol"@) == shop_user_path(users[2].username@));
    assert(shop_user_path("dave"@) == shop_user_path(users[3].username@));
}

/// The catalogue the standalone ShopFlux server starts with: alice and
/// dave buy, bob and carol sell; bob's electronics shop and carol's
/// fashion shop with three products each; four categories; alice's and
/// dave's addresses. No orders or reviews.
pub fn shop_catalog() -> (s: ShopSeed)
    ensures
        s.users@.len() == 4,
        s.shops@.len() == 2,
        s.categories@.len() == 4,
        s.products@.len() == 6,
        s.addresses@.len() == 2,
        s.orders@.len() == 0,
        s.reviews@.len() == 0,
        catalog_records(s, 50),
        shop_seed_consistent(s),
        s.shops@[0].product_count == 3,
        s.shops@[1].product_count == 3,
{
    let reviews: Vec<SeedReview> = Vec::new();
    let products = seed_products(&reviews, 0, 0);
    let shops = seed_shops(&products);
    let s = ShopSeed {
        users: seed_users(),
        shops,
        categories: seed_categories(),
        products,
        addresses: seed_addresses(),
        orders: Vec::new(),
        reviews,
    };
    proof {
        lemma_users_named(s.users@);
        lemma_three_products_each(s.products@);
    }
    s
}

/// The demo data of the embedded server: the catalogue, plus one completed
/// order (alice bought one Rust Phone Pro from bob, paid at `paid_at`)
/// and alice's five-star review of it; the phone has one fewer in stock
/// and carries the review's rating.
pub fn shop_demo_data(paid_at: &str) -> (s: ShopSeed)
    ensures
        s.users@.len() == 4,
        s.shops@.len() == 2,
        s.categories@.len() == 4,
        s.products@.len() == 6,
        s.addresses@.len() == 2,
        s.orders@.len() == 1,
        s.reviews@.len() == 1,
        catalog_records(s, 49),
        s.orders@[0].buyer@ == shop_user_path("alice"@),
        s.orders@[0].shop == 0,
        s.orders@[0].status@ == "completed"@,
        s.orders@[0].shipping_address@ == "{\"name\":\"Alice Wang\",\"phone\":\"13800138001\",\"province\":\"Beijing\",\"city\":\"Beijing\",\"district\":\"Haidian\",\"detail\":\"Zhongguancun Software Park, Building 8\"}"@,
        s.orders@[0].lines@.len() == 1,
        s.orders@[0].lines@[0].product == 0,
        s.orders@[0].lines@[0].title@ == "Rust Phone Pro"@,
        s.orders@[0].lines@[0].price == 99900,
        s.orders@[0].lines@[0].quantity == 1,
        s.reviews@[0].user@ == shop_user_path("alice"@),
        s.reviews@[0].product == 0,
        s.reviews@[0].order == 0,
        s.reviews@[0].rating == 5,
        s.reviews@[0].content@ == "Excellent phone! The Rust firmware makes it incredibly fast and reliable."@,
        shop_seed_consistent(s),
        s.shops@[0].product_count == 3,
        s.shops@[1].product_count == 3,
        s.orders@[0].total_amount == 99900,
        s.orders@[0].paid_at matches Some(p) && p@ == paid_at@,
        s.products@[0].stock == 49,
        s.products@[0].review_count == 1,
        s.products@[0].rating == 5,
{
    let mut lines: Vec<SeedOrderLine> = Vec::new();
    lines.push(SeedOrderLine { product: 0, title: "Rust Phone Pro".to_owned(), price: 99900, quantity: 1 });
    proof {
        let l = lines@;
        assert(l.drop_last() =~= Seq::<SeedOrderLine>::empty());
        assert(lines_total(l.drop_last()) == 0);
        assert(l.last() == l[0]);
        assert(l[0].price == 99900 && l[0].quantity == 1);
        assert(lines_total(l) == 99900);
    }
    let total = order_total(&lines);
    let quantity = lines[0].quantity;
    let mut orders: Vec<SeedOrder> = Vec::new();
    orders.push(
        SeedOrder {
            buyer: shop_user_resource("alice"),
            shop: 0,
            status: "completed".to_owned(),
            total_amount: total,
            shipping_address: "{\"name\":\"Alice Wang\",\"phone\":\"13800138001\",\"province\":\"Beijing\",\"city\":\"Beijing\",\"district\":\"Haidian\",\"detail\":\"Zhongguancun Software Park, Building 8\"}".to_owned(),
            lines,
            paid_at: Some(paid_at.to_owned()),
        },
    );
    let mut reviews: Vec<SeedReview> = Vec::new();
    reviews.push(
        SeedReview {
            user: shop_user_resource("alice"),
            product: 0,
            order: 0,
            rating: 5,
            content: "Excellent phone! The Rust firmware makes it incredibly fast and reliable.".to_owned(),
        },
    );
    proof {
        let r = reviews@;
        assert(r.drop_last() =~= Seq::<SeedReview>::empty());
        assert(reviews_of(r.drop_last(), 0) == 0);
        assert(r.last() == r[0]);
        assert(r[0].product == 0);
        assert(reviews_of(r, 0) == 1);
    }
    let products = seed_products(&reviews, quantity, 5);
    let shops = seed_shops(&products);
    let s = ShopSeed {
        users: seed_users(),
        shops,
        categories: seed_categories(),
        products,
        addresses: seed_addresses(),
        orders,
        reviews,
    };
    proof {
        lemma_users_named(s.users@);
        lemma_three_products_each(s.products@);
        let ord = s.orders@[0];
        assert(forall|l: int| 0 <= l < ord.lines@.len() ==> #[trigger] ord.lines@[l].product < s.products@.len());
    }
    s
}

} // verus!
