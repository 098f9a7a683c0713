use blog_sol::{
    create_post, fits, init_blog, signup_user, update_post, update_user, Address, BlogError,
    CreatePost, InitBlog, Ledger, SignupUser, UpdatePost, UpdateUser, MAX_AVATAR_LEN,
    MAX_CONTENT_LEN, MAX_NAME_LEN, MAX_TITLE_LEN,
};

fn at(n: u8) -> Address {
    Address::new([n; 32])
}

fn fresh() -> Ledger {
    let mut l = init_blog(InitBlog {
        blog_account: at(1),
        genesis_post_account: at(2),
        authority: at(10),
    })
    .unwrap();
    signup_user(
        &mut l,
        SignupUser { user_account: at(20), authority: at(10) },
        "carol".to_string(),
        "c.png".to_string(),
    )
    .unwrap();
    l
}

fn new_post(l: &mut Ledger, n: u8, title: String, content: String) -> Result<blog_sol::PostEvent, BlogError> {
    create_post(
        l,
        CreatePost { post_account: at(n), user_account: at(20), blog_account: at(1), authority: at(10) },
        title,
        content,
    )
}

#[test]
fn bounds_have_documented_sizes() {
    assert_eq!(MAX_TITLE_LEN, 50);
    assert_eq!(MAX_CONTENT_LEN, 500);
    assert_eq!(MAX_NAME_LEN, 40);
    assert_eq!(MAX_AVATAR_LEN, 120);
}

#[test]
fn fits_counts_bytes_not_chars() {
    assert!(fits(&"a".repeat(50), 50));
    assert!(!fits(&"a".repeat(51), 50));
    assert!(fits(&"é".repeat(25), 50));
    assert!(!fits(&"é".repeat(26), 50));
    assert!(fits(&String::new(), 0));
}

#[test]
fn post_text_at_the_limit_is_stored() {
    let mut l = fresh();
    new_post(&mut l, 30, "t".repeat(50), "c".repeat(500)).unwrap();
    assert_eq!(l.post(&at(30)).unwrap().title.len(), 50);
    assert_eq!(l.post(&at(30)).unwrap().content.len(), 500);
}

#[test]
fn post_text_over_the_limit_is_refused() {
    let mut l = fresh();
    assert_eq!(new_post(&mut l, 30, "t".repeat(51), "c".to_string()).err(), Some(BlogError::TooLong));
    assert_eq!(new_post(&mut l, 30, "t".to_string(), "c".repeat(501)).err(), Some(BlogError::TooLong));
    assert_eq!(new_post(&mut l, 30, "é".repeat(26), "c".to_string()).err(), Some(BlogError::TooLong));
    assert!(l.post(&at(30)).is_none());
    assert_eq!(l.current_post_key(), at(2));

    new_post(&mut l, 30, "t".to_string(), "c".to_string()).unwrap();
    let r = update_post(
        &mut l,
        UpdatePost { post_account: at(30), authority: at(10) },
        "t".repeat(51),
        "c".to_string(),
    );
    assert_eq!(r.err(), Some(BlogError::TooLong));
    assert_eq!(l.post(&at(30)).unwrap().title, "t");
}

#[test]
fn profile_over_the_limit_is_refused() {
    let mut l = fresh();
    let r = signup_user(
        &mut l,
        SignupUser { user_account: at(21), authority: at(11) },
        "n".repeat(41),
        "a".to_string(),
    );
    assert_eq!(r.err(), Some(BlogError::TooLong));
    let r = signup_user(
        &mut l,
        SignupUser { user_account: at(21), authority: at(11) },
        "n".to_string(),
        "a".repeat(121),
    );
    assert_eq!(r.err(), Some(BlogError::TooLong));
    assert!(l.user(&at(21)).is_none());
    signup_user(
        &mut l,
        SignupUser { user_account: at(21), authority: at(11) },
        "n".repeat(40),
        "a".repeat(120),
    )
    .unwrap();
    let r = update_user(
        &mut l,
        UpdateUser { user_account: at(21), authority: at(11) },
        "n".repeat(41),
        "a".to_string(),
    );
    assert_eq!(r.err(), Some(BlogError::TooLong));
    assert_eq!(l.user(&at(21)).unwrap().name, "n".repeat(40));
}
