use blog_repo::ApiError;
use blog_repo::Cause;
use blog_repo::NewPost;
use blog_repo::Repository;

fn new_post(title: &str, body: &str) -> NewPost {
    NewPost { title: title.to_string(), body: body.to_string() }
}

#[test]
fn create_then_get_returns_created() {
    let mut repo = Repository::new(4);
    let created = repo.create_post(new_post("Hello", "World")).unwrap();
    assert_eq!(created.id, 1);
    assert_eq!(created.title, "Hello");
    assert_eq!(created.body, "World");
    assert!(!created.published);

    let fetched = repo.get_post(created.id).unwrap();
    assert_eq!(fetched.id, created.id);
    assert_eq!(fetched.title, created.title);
    assert_eq!(fetched.body, created.body);
    assert_eq!(fetched.published, created.published);
}

#[test]
fn example_first_post() {
    let mut repo = Repository::new(4);
    let created = repo.create_post(new_post("Hello", "World")).unwrap();
    assert_eq!(created.id, 1);
    assert_eq!(created.title, "Hello");
    assert_eq!(created.body, "World");
    assert!(!created.published);

    let same = repo.get_post(1).unwrap();
    assert_eq!(same.id, 1);
    assert_eq!(same.title, "Hello");
    assert_eq!(same.body, "World");
    assert!(!same.published);

    let missing = repo.get_post(999).unwrap_err();
    assert!(matches!(missing, ApiError::NotFound));
}

#[test]
fn get_on_unknown_id_is_not_found() {
    let mut repo = Repository::new(2);
    let err = repo.get_post(1).unwrap_err();
    assert!(matches!(err, ApiError::NotFound));
    repo.create_post(new_post("a", "b")).unwrap();
    let err = repo.get_post(2).unwrap_err();
    assert!(matches!(err, ApiError::NotFound));
    let err = repo.get_post(-5).unwrap_err();
    assert!(matches!(err, ApiError::NotFound));
}

#[test]
fn list_is_empty_at_first() {
    let mut repo = Repository::new(2);
    let listed = repo.list_posts().unwrap();
    assert!(listed.is_empty());
}

#[test]
fn list_after_creates_returns_each_post() {
    let mut repo = Repository::new(4);
    let titles = ["first", "second", "third"];
    for title in titles {
        repo.create_post(new_post(title, "body")).unwrap();
    }
    let listed = repo.list_posts().unwrap();
    assert_eq!(listed.len(), titles.len());
    for (i, post) in listed.iter().enumerate() {
        assert_eq!(post.id, (i + 1) as i32);
        assert_eq!(post.title, titles[i]);
        assert_eq!(post.body, "body");
        assert!(!post.published);
    }
}

#[test]
fn many_creates_succeed_with_unique_ids() {
    let mut repo = Repository::new(4);
    let mut ids: Vec<i32> = Vec::new();
    for k in 0..50 {
        let title = format!("post {}", k);
        let created = repo.create_post(new_post(&title, "body")).unwrap();
        ids.push(created.id);
    }
    for i in 0..ids.len() {
        for j in 0..i {
            assert_ne!(ids[i], ids[j]);
        }
    }
    assert_eq!(repo.list_posts().unwrap().len(), 50);
}

#[test]
fn exhausted_pool_fails_with_pool_error() {
    let mut repo = Repository::new(1);
    // Hold the only connection, as a concurrent operation would.
    assert!(repo.pool.try_acquire());

    let err = repo.create_post(new_post("Hello", "World")).unwrap_err();
    assert!(matches!(err, ApiError::Other(Cause::Pool(_))));
    let err = repo.get_post(1).unwrap_err();
    assert!(matches!(err, ApiError::Other(Cause::Pool(_))));
    let err = repo.list_posts().unwrap_err();
    assert!(matches!(err, ApiError::Other(Cause::Pool(_))));

    // Once the connection comes back, operations succeed again.
    repo.pool.release();
    let created = repo.create_post(new_post("Hello", "World")).unwrap();
    assert_eq!(created.id, 1);
}

#[test]
fn zero_capacity_pool_is_always_exhausted() {
    let mut repo = Repository::new(0);
    let err = repo.create_post(new_post("a", "b")).unwrap_err();
    assert!(matches!(err, ApiError::Other(Cause::Pool(_))));
}
