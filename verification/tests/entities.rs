use posts_service::model::{NewPost, Post};

#[test]
fn new_post_keeps_title_and_body() {
    let payload = NewPost::new("Hello", "World");
    assert_eq!(payload.title, "Hello");
    assert_eq!(payload.body, "World");
    assert_eq!(
        payload,
        NewPost { title: String::from("Hello"), body: String::from("World") }
    );
}

#[test]
fn new_post_with_title_is_valid() {
    assert!(NewPost::new("Hello", "World").is_valid());
    assert!(NewPost::new("x", "").is_valid());
    assert!(NewPost::new(" ", "").is_valid());
    assert!(NewPost::new("héllo", "wörld").is_valid());
}

#[test]
fn new_post_without_title_is_not_valid() {
    assert!(!NewPost::new("", "World").is_valid());
    assert!(!NewPost::new("", "").is_valid());
}

#[test]
fn post_assigned_takes_the_id_and_the_payload() {
    let post = Post::assigned(7, NewPost::new("Hello", "World"));
    assert_eq!(
        post,
        Post { id: 7, title: String::from("Hello"), body: String::from("World") }
    );
    let post = Post::assigned(i32::MAX, NewPost::new("t", ""));
    assert_eq!(post.id, i32::MAX);
    assert_eq!(post.title, "t");
    assert_eq!(post.body, "");
}

#[test]
fn post_clone_equals_the_post() {
    let post = Post { id: 3, title: String::from("a title"), body: String::from("a body") };
    let copy = post.clone();
    assert_eq!(copy, post);
    assert_eq!(copy.id, 3);
    assert_eq!(copy.title, "a title");
    assert_eq!(copy.body, "a body");
}

#[test]
fn new_post_clone_equals_the_payload() {
    let payload = NewPost::new("a title", "a body");
    let copy = payload.clone();
    assert_eq!(copy, payload);
    assert_eq!(copy.title, "a title");
    assert_eq!(copy.body, "a body");
}
