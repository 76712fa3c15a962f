//! The decisions of the blog's front-end components, from plain values to
//! plain values: what the page frame does once the signed-in user has been
//! fetched, what the article editor holds and submits, and what the article
//! list shows. Rendering them is the browser side's work.
use vstd::prelude::*;
use vstd::string::StringExecFns;

verus! {

/// The routes the components lead to.
#[derive(Debug, Clone, Copy, PartialEq, Eq, Structural)]
pub enum Route {
    /// The sign-in page.
    Login,
    /// The page the sign-in provider sends the browser back to.
    OAuth,
    /// One article, by its id.
    ArticleViewer { article_id: u32 },
}

/// The signed-in user, as the server describes it.
#[derive(Debug)]
pub struct User {
    pub login: String,
    pub avatar_url: String,
}

/// The navigation bar shown to a signed-in user: their avatar, titled with a
/// greeting.
#[derive(Debug)]
pub struct NavBar {
    pub avatar_url: String,
    pub avatar_title: String,
}

/// What the page frame does once the user has been fetched: the user it
/// keeps for the pages inside it, where it sends the browser (if anywhere),
/// and the navigation bar it shows (if any).
#[derive(Debug)]
pub struct ContainerStep {
    pub user: Result<User, String>,
    pub navigate: Option<Route>,
    pub nav_bar: Option<NavBar>,
}

/// The greeting on a user's avatar: `Hi, {login}!`.
pub open spec fn avatar_greeting(login: Seq<char>) -> Seq<char> {
    "Hi, "@ + login + "!"@
}

/// The navigation bar for `user`: the avatar and greeting of a fetched user,
/// none while no user could be fetched.
pub fn nav_bar(user: &Result<User, String>) -> (bar: Option<NavBar>)
    ensures
        user is Err ==> bar is None,
        user matches Ok(u) ==> (bar matches Some(b) && b.avatar_url@ == u.avatar_url@
            && b.avatar_title@ == avatar_greeting(u.login@)),
{
    match user {
        Ok(u) => {
            let mut title = String::from_str("Hi, ");
            title.append(u.login.as_str());
            title.append("!");
            proof {
                reveal_strlit("Hi, ");
                reveal_strlit("!");
            }
            Some(NavBar { avatar_url: u.avatar_url.clone(), avatar_title: title })
        },
        Err(_) => None,
    }
}

/// The page frame as it first shows, before fetching the user has ended: no
/// user yet (an error with empty text), no redirect and no navigation bar.
pub fn before_fetch() -> (s: ContainerStep)
    ensures
        (s.user matches Err(e) && e@ == Seq::<char>::empty()),
        s.navigate is None,
        s.nav_bar is None,
{
    ContainerStep { user: Err(String::new()), navigate: None, nav_bar: None }
}

/// The page frame's step once fetching the user has ended with `fetched`
/// while the browser is at `route`: it keeps what was fetched; when the
/// fetch failed it sends the browser to the sign-in page, unless the
/// browser is on the page the sign-in provider returns to; and it shows the
/// navigation bar of a fetched user.
pub fn on_user_fetched(route: Route, fetched: Result<User, String>) -> (s: ContainerStep)
    ensures
        s.user == fetched,
        s.navigate == (if fetched is Err && route != Route::OAuth {
            Some(Route::Login)
        } else {
            None
        }),
        fetched is Err ==> s.nav_bar is None,
        fetched matches Ok(u) ==> (s.nav_bar matches Some(b) && b.avatar_url@ == u.avatar_url@
            && b.avatar_title@ == avatar_greeting(u.login@)),
{
    let bar = nav_bar(&fetched);
    let navigate = if fetched.is_err() && route != Route::OAuth {
        Some(Route::Login)
    } else {
        None
    };
    ContainerStep { user: fetched, navigate, nav_bar: bar }
}

/// An article as the editor submits it and the server stores it.
#[derive(Debug)]
pub struct Article {
    pub id: Option<u32>,
    pub title: String,
    pub content: String,
    pub date: Option<String>,
}

/// An article with the given title and content, not yet stored: no id and
/// no date.
pub fn submit_article(title: &str, content: &str) -> (a: Article)
    ensures
        a.id is None,
        a.date is None,
        a.title@ == title@,
        a.content@ == content@,
{
    Article { id: None, title: title.to_owned(), content: content.to_owned(), date: None }
}

/// What the article editor holds: the title and the content typed so far.
#[derive(Debug)]
pub struct EditorState {
    pub title: String,
    pub content: String,
}

impl EditorState {
    /// The editor as it opens, holding the title and content it was given
    /// (empty for a new article).
    pub fn new(title: &str, content: &str) -> (e: EditorState)
        ensures
            e.title@ == title@,
            e.content@ == content@,
    {
        EditorState { title: title.to_owned(), content: content.to_owned() }
    }

    /// The title field now reads `value`; the content is unchanged.
    pub fn set_title(&mut self, value: String)
        ensures
            final(self).title@ == value@,
            final(self).content@ == old(self).content@,
    {
        self.title = value;
    }

    /// The content field now reads `value`; the title is unchanged.
    pub fn set_content(&mut self, value: String)
        ensures
            final(self).content@ == value@,
            final(self).title@ == old(self).title@,
    {
        self.content = value;
    }

    /// What the editor does on `input`: a new title or content replaces the
    /// field; a click emits the article of the fields as they stand, and
    /// nothing else emits one.
    pub fn on_input(&mut self, input: EditorInput) -> (emitted_article: Option<Article>)
        ensures
            editor_fields(*final(self)) == after_input(editor_fields(*old(self)), input),
            emitted_article is Some <==> input is Submit,
            emitted_article matches Some(a) ==> (a.id is None && a.date is None && (
            a.title@,
            a.content@,
        ) == editor_fields(*old(self))),
    {
        match input {
            EditorInput::Title(t) => {
                self.set_title(t);
                None
            },
            EditorInput::Content(c) => {
                self.set_content(c);
                None
            },
            EditorInput::Submit => Some(self.submit()),
        }
    }

    /// The article that submitting emits: the current title and content, no
    /// id and no date.
    pub fn submit(&self) -> (a: Article)
        ensures
            a.id is None,
            a.date is None,
            a.title@ == self.title@,
            a.content@ == self.content@,
    {
        submit_article(self.title.as_str(), self.content.as_str())
    }
}

/// What the user does in the editor: types a new title, types new content,
/// or clicks the submit button.
#[derive(Debug)]
pub enum EditorInput {
    Title(String),
    Content(String),
    Submit,
}

/// The editor's fields as text: `(title, content)`.
pub open spec fn editor_fields(e: EditorState) -> (Seq<char>, Seq<char>) {
    (e.title@, e.content@)
}

/// The fields after `input`, from fields `s`.
pub open spec fn after_input(s: (Seq<char>, Seq<char>), input: EditorInput) -> (
    Seq<char>,
    Seq<char>,
) {
    match input {
        EditorInput::Title(t) => (t@, s.1),
        EditorInput::Content(c) => (s.0, c@),
        EditorInput::Submit => s,
    }
}

/// The fields after `inputs`, one after the other, from fields `s`.
pub open spec fn replay(s: (Seq<char>, Seq<char>), inputs: Seq<EditorInput>) -> (
    Seq<char>,
    Seq<char>,
)
    decreases inputs.len(),
{
    if inputs.len() == 0 {
        s
    } else {
        after_input(replay(s, inputs.drop_last()), inputs.last())
    }
}

/// The `(title, content)` of each article emitted along `inputs`, from
/// fields `s`, in order: a click emits the fields as they stand.
pub open spec fn emitted(s: (Seq<char>, Seq<char>), inputs: Seq<EditorInput>) -> Seq<
    (Seq<char>, Seq<char>),
>
    decreases inputs.len(),
{
    if inputs.len() == 0 {
        Seq::empty()
    } else if inputs.last() is Submit {
        emitted(s, inputs.drop_last()).push(replay(s, inputs.drop_last()))
    } else {
        emitted(s, inputs.drop_last())
    }
}

/// How many clicks on the submit button `inputs` holds.
pub open spec fn clicks(inputs: Seq<EditorInput>) -> nat
    decreases inputs.len(),
{
    if inputs.len() == 0 {
        0
    } else if inputs.last() is Submit {
        clicks(inputs.drop_last()) + 1
    } else {
        clicks(inputs.drop_last())
    }
}

proof fn lemma_one_article_per_click(s: (Seq<char>, Seq<char>), inputs: Seq<EditorInput>)
    ensures
        emitted(s, inputs).len() == clicks(inputs),
    decreases inputs.len(),
{
    if inputs.len() > 0 {
        lemma_one_article_per_click(s, inputs.drop_last());
    }
}

proof fn lemma_earlier_articles_stay(s: (Seq<char>, Seq<char>), inputs: Seq<EditorInput>, j: int)
    requires
        0 <= j <= inputs.len(),
    ensures
        emitted(s, inputs.take(j)).len() <= emitted(s, inputs).len(),
        emitted(s, inputs).subrange(0, emitted(s, inputs.take(j)).len() as int) == emitted(
            s,
            inputs.take(j),
        ),
    decreases inputs.len(),
{
    if j == inputs.len() {
        assert(inputs.take(j) =~= inputs);
        assert(emitted(s, inputs).subrange(0, emitted(s, inputs).len() as int) =~= emitted(
            s,
            inputs,
        ));
    } else {
        let front = inputs.drop_last();
        assert(front.take(j) =~= inputs.take(j));
        lemma_earlier_articles_stay(s, front, j);
        let e = emitted(s, inputs.take(j));
        assert(emitted(s, inputs).subrange(0, e.len() as int) =~= emitted(s, front).subrange(
            0,
            e.len() as int,
        ));
    }
}

/// Law: along any inputs, the editor emits one article per click, in order,
/// and each click's article holds the title and content as they stood at
/// that click.
pub proof fn law_each_click_emits_current_fields(
    s: (Seq<char>, Seq<char>),
    inputs: Seq<EditorInput>,
    i: int,
)
    requires
        0 <= i < inputs.len(),
        inputs[i] is Submit,
    ensures
        emitted(s, inputs).len() == clicks(inputs),
        clicks(inputs.take(i)) < clicks(inputs),
        emitted(s, inputs)[clicks(inputs.take(i)) as int] == replay(s, inputs.take(i)),
{
    lemma_one_article_per_click(s, inputs);
    lemma_one_article_per_click(s, inputs.take(i));
    lemma_one_article_per_click(s, inputs.take(i + 1));
    let upto = inputs.take(i + 1);
    assert(upto.drop_last() =~= inputs.take(i));
    assert(upto.last() == inputs[i]);
    lemma_earlier_articles_stay(s, inputs, i + 1);
    let e = emitted(s, upto);
    assert(emitted(s, inputs)[clicks(inputs.take(i)) as int] == emitted(s, inputs).subrange(
        0,
        e.len() as int,
    )[clicks(inputs.take(i)) as int]);
}

/// An article in the list, as the server previews it.
#[derive(Debug)]
pub struct ArticlePreview {
    pub id: u32,
    pub title: String,
    pub date: String,
}

/// One card of the article list: keyed by the article's id, headed by its
/// title and date, and leading to the article when clicked.
#[derive(Debug)]
pub struct PreviewCard {
    pub key: u32,
    pub title: String,
    pub date: String,
    pub target: Route,
}

/// What the article list shows.
#[derive(Debug)]
pub enum PreviewView {
    /// The text of the error that fetching the list gave.
    Error(String),
    /// The message shown when there is no article.
    Empty(&'static str),
    /// One card per article, in the list's order.
    Cards(Vec<PreviewCard>),
}

/// `card` is the card for `p`.
pub open spec fn card_of(card: PreviewCard, p: ArticlePreview) -> bool {
    &&& card.key == p.id
    &&& card.title@ == p.title@
    &&& card.date@ == p.date@
    &&& card.target == Route::ArticleViewer { article_id: p.id }
}

/// What the article list shows for `articles`: the error's text when it
/// could not be fetched, the message `似乎没有文章` ("there seem to be no
/// articles") when it is empty, and one card per article, in order,
/// otherwise.
pub fn article_preview(articles: &Result<Vec<ArticlePreview>, String>) -> (v: PreviewView)
    ensures
        match articles {
            Err(e) => v matches PreviewView::Error(t) && t@ == e@,
            Ok(list) => if list.len() == 0 {
                v matches PreviewView::Empty(m) && m@ == "似乎没有文章"@
            } else {
                v matches PreviewView::Cards(cards) && cards.len() == list.len() && forall|i: int|
                    0 <= i < list.len() ==> #[trigger] card_of(cards[i], list[i])
            },
        },
{
    match articles {
        Err(e) => PreviewView::Error(e.clone()),
        Ok(list) => {
            if list.len() == 0 {
                PreviewView::Empty("似乎没有文章")
            } else {
                let mut cards: Vec<PreviewCard> = Vec::new();
                let mut i: usize = 0;
                while i < list.len()
                    invariant
                        i <= list.len(),
                        cards.len() == i,
                        forall|j: int| 0 <= j < i ==> #[trigger] card_of(cards[j], list[j]),
                    decreases list.len() - i,
                {
                    let p = &list[i];
                    cards.push(
                        PreviewCard {
                            key: p.id,
                            title: p.title.clone(),
                            date: p.date.clone(),
                            target: Route::ArticleViewer { article_id: p.id },
                        },
                    );
                    i = i + 1;
                }
                PreviewView::Cards(cards)
            }
        },
    }
}

} // verus!
