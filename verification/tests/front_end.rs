use wasm_agent::front_end::{
    self, article_preview, before_fetch, on_user_fetched, EditorInput, submit_article, ArticlePreview, EditorState, PreviewView, User,
};
use wasm_agent::routes::{page_title, secure, switch, Page, Route};
use wasm_agent::store::YewduxStore;

#[test]
fn routes_are_served_at_their_paths() {
    assert_eq!(Route::Login.path(), "/");
    assert_eq!(Route::Home.path(), "/home");
    assert_eq!(Route::Secure.path(), "/secure");
    assert_eq!(Route::NotFound.path(), "/404");
}

#[test]
fn law_route_paths_are_distinct() {
    let all = [Route::Login, Route::Home, Route::Secure, Route::NotFound];
    for a in all {
        for b in all {
            assert_eq!(a == b, a.path() == b.path());
        }
    }
}

#[test]
fn switch_shows_each_page() {
    assert!(matches!(switch(Route::Login), Page::LoginForm));
    assert!(matches!(switch(Route::Home), Page::Heading("Home")));
    assert!(matches!(switch(Route::Secure), Page::SecurePage));
    assert!(matches!(switch(Route::NotFound), Page::Heading("404")));
}

#[test]
fn secure_page_leads_home() {
    let v = secure();
    assert_eq!(v.heading, "Secure");
    assert_eq!(v.button_label, "Go Home");
    assert_eq!(v.button_target, Route::Home);
}

#[test]
fn title_names_the_blog() {
    assert_eq!(page_title("Home"), "Home - Blog");
    assert_eq!(page_title(""), " - Blog");
}

#[test]
fn default_store_is_empty() {
    let s = YewduxStore::default();
    assert_eq!(s.username, "");
    assert_eq!(s.password, "");
    assert_eq!(s.token, "");
}

#[test]
fn cloned_store_is_equal() {
    let s = YewduxStore {
        username: "ann".to_string(),
        password: "pw".to_string(),
        token: "t0k".to_string(),
    };
    let c = s.clone();
    assert!(c == s);
    let mut d = s.clone();
    d.token = "other".to_string();
    assert!(d != s);
}

fn ann() -> User {
    User { login: "ann".to_string(), avatar_url: "https://example.org/ann.png".to_string() }
}

#[test]
fn failed_fetch_sends_to_login() {
    let s = on_user_fetched(front_end::Route::Login, Err("401".to_string()));
    assert_eq!(s.navigate, Some(front_end::Route::Login));
    assert!(s.nav_bar.is_none());
    assert!(matches!(s.user, Err(ref e) if e == "401"));
    let s = on_user_fetched(front_end::Route::ArticleViewer { article_id: 3 }, Err(String::new()));
    assert_eq!(s.navigate, Some(front_end::Route::Login));
}

#[test]
fn failed_fetch_on_oauth_page_stays() {
    let s = on_user_fetched(front_end::Route::OAuth, Err("401".to_string()));
    assert_eq!(s.navigate, None);
    assert!(s.nav_bar.is_none());
}

#[test]
fn fetched_user_gets_the_nav_bar() {
    let s = on_user_fetched(front_end::Route::Login, Ok(ann()));
    assert_eq!(s.navigate, None);
    match s.nav_bar {
        Some(b) => {
            assert_eq!(b.avatar_url, "https://example.org/ann.png");
            assert_eq!(b.avatar_title, "Hi, ann!");
        },
        None => panic!("no nav bar"),
    }
    assert!(matches!(s.user, Ok(ref u) if u.login == "ann"));
}

#[test]
fn submitted_article_has_no_id_or_date() {
    let a = submit_article("Title", "# Body");
    assert_eq!(a.id, None);
    assert_eq!(a.date, None);
    assert_eq!(a.title, "Title");
    assert_eq!(a.content, "# Body");
}

#[test]
fn editor_submits_what_was_typed() {
    let mut e = EditorState::new("", "");
    let a = e.submit();
    assert_eq!(a.title, "");
    assert_eq!(a.content, "");
    e.set_title("First".to_string());
    e.set_content("text".to_string());
    e.set_title("Second".to_string());
    let a = e.submit();
    assert_eq!(a.title, "Second");
    assert_eq!(a.content, "text");
    assert_eq!(a.id, None);
    assert_eq!(a.date, None);
    let e = EditorState::new("Old", "old body");
    assert_eq!(e.submit().content, "old body");
}

#[test]
fn article_list_shows_error_text() {
    match article_preview(&Err("network down".to_string())) {
        PreviewView::Error(t) => assert_eq!(t, "network down"),
        other => panic!("unexpected view: {:?}", other),
    }
}

#[test]
fn empty_article_list_says_so() {
    match article_preview(&Ok(Vec::new())) {
        PreviewView::Empty(m) => assert_eq!(m, "似乎没有文章"),
        other => panic!("unexpected view: {:?}", other),
    }
}

#[test]
fn article_list_has_one_card_per_article_in_order() {
    let list = vec![
        ArticlePreview { id: 7, title: "Seven".to_string(), date: "2023-01-07".to_string() },
        ArticlePreview { id: 2, title: "Two".to_string(), date: "2023-01-02".to_string() },
    ];
    match article_preview(&Ok(list)) {
        PreviewView::Cards(cards) => {
            assert_eq!(cards.len(), 2);
            assert_eq!(cards[0].key, 7);
            assert_eq!(cards[0].title, "Seven");
            assert_eq!(cards[0].date, "2023-01-07");
            assert_eq!(cards[0].target, front_end::Route::ArticleViewer { article_id: 7 });
            assert_eq!(cards[1].key, 2);
            assert_eq!(cards[1].title, "Two");
            assert_eq!(cards[1].target, front_end::Route::ArticleViewer { article_id: 2 });
        },
        other => panic!("unexpected view: {:?}", other),
    }
}

#[test]
fn frame_before_fetch_shows_nothing() {
    let s = before_fetch();
    assert!(matches!(s.user, Err(ref e) if e.is_empty()));
    assert_eq!(s.navigate, None);
    assert!(s.nav_bar.is_none());
}

#[test]
fn law_each_click_emits_current_fields() {
    let mut e = EditorState::new("", "");
    let mut out = Vec::new();
    let inputs = vec![
        EditorInput::Submit,
        EditorInput::Title("A".to_string()),
        EditorInput::Content("x".to_string()),
        EditorInput::Submit,
        EditorInput::Title("B".to_string()),
        EditorInput::Submit,
        EditorInput::Content("y".to_string()),
    ];
    for i in inputs {
        if let Some(a) = e.on_input(i) {
            assert_eq!(a.id, None);
            assert_eq!(a.date, None);
            out.push((a.title, a.content));
        }
    }
    assert_eq!(
        out,
        vec![
            (String::new(), String::new()),
            ("A".to_string(), "x".to_string()),
            ("B".to_string(), "x".to_string()),
        ]
    );
    assert_eq!(e.title, "B");
    assert_eq!(e.content, "y");
}
