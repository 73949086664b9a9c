use std::collections::hash_map::DefaultHasher;
use std::hash::{Hash, Hasher};

use appnut::shop::seed::{image_list_for, shop_catalog, shop_demo_data, count_products_in};
use appnut::twitter::seed::{count_authored, twitter_demo_data, user_resource};

fn digest(pw: &str) -> String {
    let mut h = DefaultHasher::new();
    pw.hash(&mut h);
    format!("{:016x}", h.finish())
}

fn std_images(title: &str) -> String {
    format!("[\"https://picsum.photos/seed/{}/400\"]", title.replace(' ', "_").to_lowercase())
}

#[test]
fn twitter_demo_users_tweets_and_messages() {
    let s = twitter_demo_data();
    let names: Vec<&str> = s.users.iter().map(|u| u.username.as_str()).collect();
    assert_eq!(names, vec!["alice", "bob", "carol"]);
    for u in &s.users {
        assert_eq!(u.tweet_count, 1);
        assert_eq!(u.password_hash, digest("password"));
        assert_eq!(u.avatar, format!("https://api.dicebear.com/7.x/initials/svg?seed={}", u.username));
    }
    assert_eq!(s.tweets[2].author, "twitter/users/carol");
    assert_eq!(s.tweets[0].content, "Just shipped Flux — a cross-platform state engine in Rust!");
    assert_eq!(s.messages.len(), 3);
    assert_eq!(s.messages[0].kind, "broadcast");
    assert_eq!(s.messages[1].title.ja, "新機能：多言語サポート");
    assert_eq!(s.messages[2].recipient.as_deref(), Some("twitter/users/alice"));
}

#[test]
fn tweet_counts_follow_the_tweets() {
    let s = twitter_demo_data();
    assert_eq!(count_authored(&s.tweets, &user_resource("alice")), 1);
    assert_eq!(count_authored(&s.tweets, "twitter/users/dave"), 0);
    let total: i64 = s.users.iter().map(|u| u.tweet_count).sum();
    assert_eq!(total as usize, s.tweets.len());
}

#[test]
fn image_lists_match_titles() {
    for title in ["Rust Phone Pro", "USB-C Hub 7-in-1", "Leather Tote Bag"] {
        assert_eq!(image_list_for(title), std_images(title));
    }
    assert_eq!(image_list_for("Silk Scarf"), "[\"https://picsum.photos/seed/silk_scarf/400\"]");
}

#[test]
fn shop_catalog_counts() {
    let s = shop_catalog();
    assert_eq!((s.users.len(), s.shops.len(), s.categories.len(), s.products.len()), (4, 2, 4, 6));
    assert_eq!(s.addresses.len(), 2);
    assert!(s.orders.is_empty() && s.reviews.is_empty());
    assert_eq!(s.shops[0].product_count, 3);
    assert_eq!(s.shops[1].owner, "shop/users/carol");
    assert_eq!(count_products_in(&s.products, 1), 3);
    assert_eq!(s.categories[3].parent, Some(2));
    assert_eq!(s.products[0].stock, 50);
    assert_eq!(s.products[0].rating, 0);
    assert_eq!(s.users[3].description, "@dave");
    for p in &s.products {
        assert_eq!(p.images, std_images(&p.title));
        assert_eq!(p.review_count, 0);
        assert_eq!(p.status, "on_sale");
    }
}

#[test]
fn shop_demo_order_and_review() {
    let s = shop_demo_data("2024-05-01T00:00:00+00:00");
    assert_eq!(s.orders.len(), 1);
    let o = &s.orders[0];
    assert_eq!(o.buyer, "shop/users/alice");
    assert_eq!(o.total_amount, 99900);
    assert_eq!(o.status, "completed");
    assert_eq!(o.paid_at.as_deref(), Some("2024-05-01T00:00:00+00:00"));
    assert_eq!(o.lines[0].product, 0);
    assert_eq!(s.reviews[0].rating, 5);
    assert_eq!(s.products[0].stock, 49);
    assert_eq!(s.products[0].review_count, 1);
    assert_eq!(s.products[0].rating, 5);
    assert_eq!(s.products[1].review_count, 0);
    assert_eq!(s.products[1].rating, 0);
}
