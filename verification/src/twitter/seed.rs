//! The TwitterFlux demo data loaded before any client connects: three
//! users, one tweet by each, and three messages. The records are plain
//! values; writing them to storage is the server's part. Each user's tweet
//! count is counted from the tweets, so the two stay in step.
use vstd::prelude::*;
use crate::digest::password_digest;
use crate::text::{chars_of, concat2, same_text};
use crate::twitter::module::ffi_hash_pw;

verus! {

/// The resource name of user `username`: `twitter/users/{username}`.
pub open spec fn user_path(username: Seq<char>) -> Seq<char> {
    "twitter/users/"@ + username
}

/// The resource name of user `username`.
pub fn user_resource(username: &str) -> (r: String)
    ensures
        r@ == user_path(username@),
{
    concat2("twitter/users/", username)
}

/// The avatar of a demo user: initials drawn by dicebear from the username.
pub open spec fn avatar_url(username: Seq<char>) -> Seq<char> {
    "https://api.dicebear.com/7.x/initials/svg?seed="@ + username
}

/// The avatar URL of `username`.
pub fn avatar_for(username: &str) -> (r: String)
    ensures
        r@ == avatar_url(username@),
{
    concat2("https://api.dicebear.com/7.x/initials/svg?seed=", username)
}

/// A demo user.
pub struct SeedUser {
    pub username: String,
    pub display_name: String,
    pub bio: String,
    /// The digest of the password `password`.
    pub password_hash: String,
    pub avatar: String,
    pub follower_count: i64,
    pub following_count: i64,
    pub tweet_count: i64,
}

/// A demo tweet.
pub struct SeedTweet {
    /// The author's resource name.
    pub author: String,
    pub content: String,
}

/// A text in English, Simplified Chinese, Japanese and Spanish.
pub struct LocalizedText4 {
    pub en: String,
    pub zh_cn: String,
    pub ja: String,
    pub es: String,
}

/// A demo message.
pub struct SeedMessage {
    /// `broadcast`, `system` or `personal`.
    pub kind: String,
    /// The recipient's resource name, for a personal message.
    pub recipient: Option<String>,
    pub title: LocalizedText4,
    pub body: LocalizedText4,
}

/// The TwitterFlux demo data.
pub struct TwitterSeed {
    pub users: Vec<SeedUser>,
    pub tweets: Vec<SeedTweet>,
    pub messages: Vec<SeedMessage>,
}

/// The number of tweets in `tweets` whose author is `author`.
pub open spec fn authored(tweets: Seq<SeedTweet>, author: Seq<char>) -> nat
    decreases tweets.len(),
{
    if tweets.len() == 0 {
        0
    } else {
        authored(tweets.drop_last(), author) + if tweets.last().author@ == author {
            1nat
        } else {
            0nat
        }
    }
}

proof fn lemma_authored_bound(tweets: Seq<SeedTweet>, author: Seq<char>)
    ensures
        authored(tweets, author) <= tweets.len(),
    decreases tweets.len(),
{
    if tweets.len() > 0 {
        lemma_authored_bound(tweets.drop_last(), author);
    }
}

/// The number of tweets in `tweets` written by `author`.
pub fn count_authored(tweets: &Vec<SeedTweet>, author: &str) -> (n: i64)
    requires
        tweets@.len() <= i64::MAX,
    ensures
        n == authored(tweets@, author@),
{
    let who = chars_of(author);
    let mut n: i64 = 0;
    let mut i: usize = 0;
    while i < tweets.len()
        invariant
            i <= tweets@.len(),
            tweets@.len() <= i64::MAX,
            who@ == author@,
            n == authored(tweets@.take(i as int), author@),
        decreases tweets@.len() - i,
    {
        proof {
            lemma_authored_bound(tweets@.take(i as int), author@);
            assert(tweets@.take(i as int + 1).drop_last() =~= tweets@.take(i as int));
        }
        if same_text(&chars_of(tweets[i].author.as_str()), &who) {
            n = n + 1;
        }
        i = i + 1;
    }
    assert(tweets@.take(i as int) =~= tweets@);
    n
}

/// The demo data keeps its counts and references in step: each user's
/// tweet count is the number of tweets it wrote, nobody follows anybody
/// yet, every tweet's author and every message's recipient is a demo user,
/// and every password is the digest of `password`.
pub open spec fn twitter_seed_consistent(s: TwitterSeed) -> bool {
    &&& forall|i: int|
        0 <= i < s.users@.len() ==> #[trigger] s.users@[i].tweet_count == authored(
            s.tweets@,
            user_path(s.users@[i].username@),
        )
    &&& forall|i: int|
        0 <= i < s.users@.len() ==> #[trigger] s.users@[i].follower_count == 0
            && s.users@[i].following_count == 0
    &&& forall|i: int|
        0 <= i < s.users@.len() ==> #[trigger] s.users@[i].avatar@ == avatar_url(
            s.users@[i].username@,
        )
    &&& forall|i: int|
        0 <= i < s.users@.len() ==> #[trigger] s.users@[i].password_hash@ == password_digest(
            "password",
        )
    &&& forall|t: int|
        0 <= t < s.tweets@.len() ==> exists|i: int|
            0 <= i < s.users@.len() && #[trigger] s.tweets@[t].author@ == user_path(
                s.users@[i].username@,
            )
    &&& forall|m: int|
        0 <= m < s.messages@.len() ==> ((#[trigger] s.messages@[m]).recipient matches Some(p)
            ==> exists|i: int| 0 <= i < s.users@.len() && p@ == user_path(s.users@[i].username@))
}

/// `u` is the demo user `username`, named `display`, with bio `bio`.
pub open spec fn user_record(u: SeedUser, username: Seq<char>, display: Seq<char>, bio: Seq<char>) -> bool {
    &&& u.username@ == username
    &&& u.display_name@ == display
    &&& u.bio@ == bio
}

/// `t` is the tweet `content` by user `author`.
pub open spec fn tweet_record(t: SeedTweet, author: Seq<char>, content: Seq<char>) -> bool {
    &&& t.author@ == user_path(author)
    &&& t.content@ == content
}

/// `t` reads `en`, `zh_cn`, `ja` and `es` in its four languages.
pub open spec fn text_record(t: LocalizedText4, en: Seq<char>, zh_cn: Seq<char>, ja: Seq<char>, es: Seq<char>) -> bool {
    &&& t.en@ == en
    &&& t.zh_cn@ == zh_cn
    &&& t.ja@ == ja
    &&& t.es@ == es
}

fn tweet(author: &str, content: &str) -> (t: SeedTweet)
    ensures
        tweet_record(t, author@, content@),
{
    SeedTweet { author: user_resource(author), content: content.to_owned() }
}

fn user(username: &str, display: &str, bio: &str, tweets: &Vec<SeedTweet>) -> (u: SeedUser)
    requires
        tweets@.len() <= i64::MAX,
    ensures
        user_record(u, username@, display@, bio@),
        u.password_hash@ == password_digest("password"),
        u.avatar@ == avatar_url(username@),
        u.follower_count == 0,
        u.following_count == 0,
        u.tweet_count == authored(tweets@, user_path(username@)),
{
    let path = user_resource(username);
    SeedUser {
        username: username.to_owned(),
        display_name: display.to_owned(),
        bio: bio.to_owned(),
        password_hash: ffi_hash_pw("password"),
        avatar: avatar_for(username),
        follower_count: 0,
        following_count: 0,
        tweet_count: count_authored(tweets, path.as_str()),
    }
}

fn localized(en: &str, zh_cn: &str, ja: &str, es: &str) -> (t: LocalizedText4)
    ensures
        text_record(t, en@, zh_cn@, ja@, es@),
{
    LocalizedText4 {
        en: en.to_owned(),
        zh_cn: zh_cn.to_owned(),
        ja: ja.to_owned(),
        es: es.to_owned(),
    }
}

/// The TwitterFlux demo data: alice, bob and carol with one tweet each, a
/// broadcast welcome, a system notice and a personal message to alice.
pub fn twitter_demo_data() -> (s: TwitterSeed)
    ensures
        s.users@.len() == 3,
        s.tweets@.len() == 3,
        s.messages@.len() == 3,
        user_record(s.users@[0], "alice"@, "Alice Wang"@, "Rust developer & open source enthusiast"@),
        user_record(s.users@[1], "bob"@, "Bob Li"@, "Product designer at Haivivi"@),
        user_record(s.users@[2], "carol"@, "Carol Zhang"@, "Full-stack engineer"@),
        tweet_record(s.tweets@[0], "alice"@, "Just shipped Flux — a cross-platform state engine in Rust!"@),
        tweet_record(s.tweets@[1], "bob"@, "Dark mode design system is ready. Ship it!"@),
        tweet_record(s.tweets@[2], "carol"@, "Hot take: Bazel > Cargo for monorepos."@),
        s.messages@[0].kind@ == "broadcast"@,
        s.messages@[0].recipient is None,
        text_record(
            s.messages@[0].title,
            "Welcome to TwitterFlux!"@,
            "欢迎来到 TwitterFlux！"@,
            "TwitterFlux へようこそ！"@,
            "¡Bienvenido a TwitterFlux!"@,
        ),
        text_record(
            s.messages@[0].body,
            "Thanks for joining! Follow some users and post your first tweet."@,
            "感谢加入！快去关注用户，发你的第一条推文吧！"@,
            "ご参加ありがとうございます！ユーザーをフォローして最初のツイートを！"@,
            "¡Gracias por unirte! Sigue a usuarios y publica tu primer tweet."@,
        ),
        s.messages@[1].kind@ == "system"@,
        s.messages@[1].recipient is None,
        text_record(
            s.messages@[1].title,
            "New Feature: Multi-language Support"@,
            "新功能：多语言支持"@,
            "新機能：多言語サポート"@,
            "Nueva función: Soporte multilingüe"@,
        ),
        text_record(
            s.messages@[1].body,
            "Switch between English, Chinese, Japanese and Spanish in Settings."@,
            "在设置中切换英文、中文、日文和西班牙文。"@,
            "設定から英語・中国語・日本語・スペイン語を切り替えられます。"@,
            "Cambia entre inglés, chino, japonés y español en Configuración."@,
        ),
        s.messages@[2].kind@ == "personal"@,
        s.messages@[2].recipient matches Some(p) && p@ == user_path("alice"@),
        text_record(
            s.messages@[2].title,
            "Your account has been verified"@,
            "你的账号已通过认证"@,
            "アカウントが認証されました"@,
            "Tu cuenta ha sido verificada"@,
        ),
        text_record(
            s.messages@[2].body,
            "Congratulations! You now have access to the API dashboard."@,
            "恭喜！你现在可以访问 API 管理面板了。"@,
            "おめでとうございます！APIダッシュボードにアクセスできます。"@,
            "¡Felicitaciones! Ahora tienes acceso al panel de API."@,
        ),
        twitter_seed_consistent(s),
{
    let mut tweets: Vec<SeedTweet> = Vec::new();
    tweets.push(tweet("alice", "Just shipped Flux — a cross-platform state engine in Rust!"));
    tweets.push(tweet("bob", "Dark mode design system is ready. Ship it!"));
    tweets.push(tweet("carol", "Hot take: Bazel > Cargo for monorepos."));

    let mut users: Vec<SeedUser> = Vec::new();
    users.push(user("alice", "Alice Wang", "Rust developer & open source enthusiast", &tweets));
    users.push(user("bob", "Bob Li", "Product designer at Haivivi", &tweets));
    users.push(user("carol", "Carol Zhang", "Full-stack engineer", &tweets));

    let mut messages: Vec<SeedMessage> = Vec::new();
    messages.push(
        SeedMessage {
            kind: "broadcast".to_owned(),
            recipient: None,
            title: localized(
                "Welcome to TwitterFlux!",
                "欢迎来到 TwitterFlux！",
                "TwitterFlux へようこそ！",
                "¡Bienvenido a TwitterFlux!",
            ),
            body: localized(
                "Thanks for joining! Follow some users and post your first tweet.",
                "感谢加入！快去关注用户，发你的第一条推文吧！",
                "ご参加ありがとうございます！ユーザーをフォローして最初のツイートを！",
                "¡Gracias por unirte! Sigue a usuarios y publica tu primer tweet.",
            ),
        },
    );
    messages.push(
        SeedMessage {
            kind: "system".to_owned(),
            recipient: None,
            title: localized(
                "New Feature: Multi-language Support",
                "新功能：多语言支持",
                "新機能：多言語サポート",
                "Nueva función: Soporte multilingüe",
            ),
            body: localized(
                "Switch between English, Chinese, Japanese and Spanish in Settings.",
                "在设置中切换英文、中文、日文和西班牙文。",
                "設定から英語・中国語・日本語・スペイン語を切り替えられます。",
                "Cambia entre inglés, chino, japonés y español en Configuración.",
            ),
        },
    );
    messages.push(
        SeedMessage {
            kind: "personal".to_owned(),
            recipient: Some(user_resource("alice")),
            title: localized(
                "Your account has been verified",
                "你的账号已通过认证",
                "アカウントが認証されました",
                "Tu cuenta ha sido verificada",
            ),
            body: localized(
                "Congratulations! You now have access to the API dashboard.",
                "恭喜！你现在可以访问 API 管理面板了。",
                "おめでとうございます！APIダッシュボードにアクセスできます。",
                "¡Felicitaciones! Ahora tienes acceso al panel de API.",
            ),
        },
    );
    let s = TwitterSeed { users, tweets, messages };
    assert(s.tweets@[0].author@ == user_path(s.users@[0].username@));
    assert(s.tweets@[1].author@ == user_path(s.users@[1].username@));
    assert(s.tweets@[2].author@ == user_path(s.users@[2].username@));
    assert(s.messages@[2].recipient.unwrap()@ == user_path(s.users@[0].username@));
    s
}

} // verus!
