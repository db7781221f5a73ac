//! The state of the dashboard: the issues with their cursor, the lazily
//! filled comment threads, and what each key press does to them.
//!
//! A thread is fetched when its issue is first selected and kept from then on.
//! The state never performs a fetch itself: a move of the cursor hands the
//! caller the request to send, and the caller hands back what came of it.

use crate::client::{BacklogClient, ClientView, Request, RequestView};
use crate::error::Error;
use crate::issue::{
    comment_views, drop_empty_comments, issue_views, with_content, Comment, CommentView, Issue,
    IssueView,
};
use crate::selection::{cursor_after_next, cursor_after_previous, StatefulList};
use vstd::prelude::*;

verus! {

/// What the operator can ask for.
#[derive(Debug, Clone, Copy, PartialEq, Eq, Structural)]
pub enum Input {
    Quit,
    ClearSelection,
    MoveDown,
    MoveUp,
    /// Any other key. It is ignored.
    Other,
}

/// The comments of the issue at `index` are wanted: `request` asks for them.
#[derive(Debug, Clone, PartialEq, Eq)]
pub struct Fetch {
    pub index: usize,
    pub request: Request,
}

/// What the caller does after a key press, before it reads the next one.
#[derive(Debug, Clone, PartialEq, Eq)]
pub enum Action {
    /// Leave the dashboard.
    Quit,
    /// Send the request and report the outcome with
    /// [`App::receive_comments`].
    Fetch(Fetch),
    /// Nothing but to show the new state.
    Continue,
}

/// The mathematical content of a [`Fetch`].
pub struct FetchView {
    pub index: int,
    pub request: RequestView,
}

/// The mathematical content of an [`Action`].
pub enum ActionView {
    Quit,
    Fetch(FetchView),
    Continue,
}

impl View for Fetch {
    type V = FetchView;

    open spec fn view(&self) -> FetchView {
        FetchView { index: self.index as int, request: self.request@ }
    }
}

impl View for Action {
    type V = ActionView;

    open spec fn view(&self) -> ActionView {
        match self {
            Action::Quit => ActionView::Quit,
            Action::Fetch(fetch) => ActionView::Fetch(fetch@),
            Action::Continue => ActionView::Continue,
        }
    }
}

/// The fetch that a caller is handed, if any, as what it stands for.
pub open spec fn fetch_view(fetch: Option<Fetch>) -> Option<FetchView> {
    match fetch {
        Some(f) => Some(f@),
        None => None,
    }
}

/// The outcome of a fetch of comments as what it stands for.
pub open spec fn outcome_view(outcome: Result<Vec<Comment>, Error>) -> Result<
    Seq<CommentView>,
    Error,
> {
    match outcome {
        Ok(thread) => Ok(comment_views(thread@)),
        Err(e) => Err(e),
    }
}

/// The address of the page that shows the issue `issue_key` of the space
/// `space_id` in a browser.
pub open spec fn issue_page_url(space_id: Seq<char>, issue_key: Seq<char>) -> Seq<char> {
    "https://"@ + space_id + ".backlog.com"@ + "/view/"@ + issue_key
}

/// The mathematical content of an [`App`].
#[verifier::ext_equal]
pub struct AppView {
    pub issues: Seq<IssueView>,
    pub cursor: Option<int>,
    pub client: ClientView,
    pub is_vertical: bool,
}

impl AppView {
    /// The cursor, where there is one, points at an issue.
    pub open spec fn wf(self) -> bool {
        self.cursor matches Some(i) ==> 0 <= i < self.issues.len()
    }

    /// The state right after `issues` were loaded: nothing is selected.
    pub open spec fn loaded(client: ClientView, issues: Seq<IssueView>) -> AppView {
        AppView { issues, cursor: None, client, is_vertical: false }
    }

    /// The issue under the cursor.
    pub open spec fn selected_issue(self) -> Option<IssueView> {
        match self.cursor {
            Some(i) => Some(self.issues[i]),
            None => None,
        }
    }

    /// There is an issue at `index` and its comments have not been stored
    /// yet.
    pub open spec fn needs_comments(self, index: int) -> bool {
        0 <= index < self.issues.len() && self.issues[index].comments is None
    }

    /// The request to send so that the issue at `index` gets its comments:
    /// none where it has them already, or where there is no such issue.
    pub open spec fn ensure_comments_loaded(self, index: int) -> Option<RequestView> {
        if self.needs_comments(index) {
            Some(self.client.fetch_comments(self.issues[index].issue_key))
        } else {
            None
        }
    }

    /// The fetch that the selected issue is waiting for.
    pub open spec fn pending_fetch(self) -> Option<FetchView> {
        match self.cursor {
            Some(i) => match self.ensure_comments_loaded(i) {
                Some(request) => Some(FetchView { index: i, request }),
                None => None,
            },
            None => None,
        }
    }

    /// The state with `thread`, less the comments that say nothing, stored as
    /// the comments of the issue at `index`.
    pub open spec fn with_comments(self, index: int, thread: Seq<CommentView>) -> AppView {
        AppView {
            issues: self.issues.update(
                index,
                IssueView { comments: Some(with_content(thread)), ..self.issues[index] },
            ),
            ..self
        }
    }

    /// The state after a fetch for the issue at `index` has ended in
    /// `outcome`. A thread that arrived is stored unless the issue has one
    /// already. A failure leaves no trace.
    pub open spec fn receive_comments(
        self,
        index: int,
        outcome: Result<Seq<CommentView>, Error>,
    ) -> AppView {
        match outcome {
            Ok(thread) => if self.needs_comments(index) {
                self.with_comments(index, thread)
            } else {
                self
            },
            Err(_) => self,
        }
    }

    pub open spec fn unselect(self) -> AppView {
        AppView { cursor: None, ..self }
    }

    pub open spec fn move_down(self) -> AppView {
        AppView { cursor: cursor_after_next(self.issues.len(), self.cursor), ..self }
    }

    pub open spec fn move_up(self) -> AppView {
        AppView { cursor: cursor_after_previous(self.issues.len(), self.cursor), ..self }
    }

    /// The state after `input`.
    pub open spec fn after(self, input: Input) -> AppView {
        match input {
            Input::Quit => self,
            Input::ClearSelection => self.unselect(),
            Input::MoveDown => self.move_down(),
            Input::MoveUp => self.move_up(),
            Input::Other => self,
        }
    }

    /// What the caller is to do after `input`. A move asks for the comments
    /// of the issue that it reaches, unless they are there.
    pub open spec fn action(self, input: Input) -> ActionView {
        match input {
            Input::Quit => ActionView::Quit,
            Input::MoveDown | Input::MoveUp => match self.after(input).pending_fetch() {
                Some(fetch) => ActionView::Fetch(fetch),
                None => ActionView::Continue,
            },
            Input::ClearSelection | Input::Other => ActionView::Continue,
        }
    }
}

/// Something that happens to the dashboard: a key is pressed, or a fetch of
/// the comments of the issue at `index` comes to an end.
pub enum Event {
    Key(Input),
    Comments { index: int, outcome: Result<Seq<CommentView>, Error> },
}

impl AppView {
    /// The state after `event`.
    pub open spec fn step(self, event: Event) -> AppView {
        match event {
            Event::Key(input) => self.after(input),
            Event::Comments { index, outcome } => self.receive_comments(index, outcome),
        }
    }

    /// The state after `events`, one after the other.
    pub open spec fn run(self, events: Seq<Event>) -> AppView
        decreases events.len(),
    {
        if events.len() == 0 {
            self
        } else {
            self.run(events.drop_last()).step(events.last())
        }
    }
}

/// The dashboard's state.
pub struct App {
    pub(crate) items: StatefulList<Issue>,
    pub(crate) client: BacklogClient,
    /// Whether the list and the detail pane stand side by side.
    pub is_vertical: bool,
}

impl View for App {
    type V = AppView;

    open(crate) spec fn view(&self) -> AppView {
        AppView {
            issues: issue_views(self.items@.items),
            cursor: self.items@.cursor,
            client: self.client@,
            is_vertical: self.is_vertical,
        }
    }
}

impl App {
    /// The state at start-up, from the client and from what the request for
    /// the issues came to. A failed load is passed on: without issues there
    /// is nothing to show.
    pub fn init(client: BacklogClient, loaded: Result<Vec<Issue>, Error>) -> (app: Result<
        App,
        Error,
    >)
        ensures
            match loaded {
                Ok(issues) => app matches Ok(a) && a@ == AppView::loaded(
                    client@,
                    issue_views(issues@),
                ) && a@.wf(),
                Err(e) => app == Err::<App, Error>(e),
            },
    {
        match loaded {
            Ok(issues) => Ok(
                App { items: StatefulList::with_items(issues), client, is_vertical: false },
            ),
            Err(e) => Err(e),
        }
    }

    /// The issues and the cursor.
    pub fn items(&self) -> (items: &StatefulList<Issue>)
        ensures
            issue_views(items@.items) == self@.issues,
            items@.cursor == self@.cursor,
            self@.wf(),
    {
        proof {
            use_type_invariant(&self.items);
        }
        &self.items
    }

    /// The issue under the cursor, if there is a cursor.
    pub fn get_selected_issue(&self) -> (issue: Option<&Issue>)
        ensures
            self@.wf(),
            match issue {
                Some(i) => self@.selected_issue() == Some(i@),
                None => self@.selected_issue() is None,
            },
    {
        self.items.selected()
    }

    /// The address to open in a browser for the issue under the cursor, if
    /// there is a cursor.
    pub fn open_browser(&self) -> (url: Option<String>)
        ensures
            match url {
                Some(u) => self@.selected_issue() matches Some(issue) && u@ == issue_page_url(
                    self@.client.space_id,
                    issue.issue_key,
                ),
                None => self@.selected_issue() is None,
            },
    {
        match self.get_selected_issue() {
            Some(issue) => {
                let mut url = "https://".to_owned();
                url.append(self.client.space_id());
                url.append(".backlog.com");
                url.append("/view/");
                url.append(issue.issue_key.as_str());
                Some(url)
            },
            None => None,
        }
    }

    /// The request to send so that the issue at `index` gets its comments, or
    /// `None` where nothing is to be sent: the comments are there, or there
    /// is no issue at `index`.
    pub fn ensure_comments_loaded(&self, index: usize) -> (request: Option<Request>)
        ensures
            match request {
                Some(r) => self@.ensure_comments_loaded(index as int) == Some(r@),
                None => self@.ensure_comments_loaded(index as int) is None,
            },
    {
        let issues = self.items.items();
        if index < issues.len() && issues[index].comments.is_none() {
            Some(self.client.fetch_comments(&issues[index]))
        } else {
            None
        }
    }

    /// The fetch that the selected issue is waiting for, if it is waiting
    /// for one.
    pub fn pending_fetch(&self) -> (fetch: Option<Fetch>)
        ensures
            fetch_view(fetch) == self@.pending_fetch(),
            self@.wf(),
    {
        match self.items.selected_index() {
            Some(index) => match self.ensure_comments_loaded(index) {
                Some(request) => Some(Fetch { index, request }),
                None => None,
            },
            None => None,
        }
    }

    /// Takes in what a fetch of the comments of the issue at `index` came
    /// to. A thread is stored without the comments that say nothing, unless
    /// the issue has its comments already. After a failure the issue is
    /// still without comments, and selecting it again asks for them again.
    pub fn receive_comments(&mut self, index: usize, outcome: Result<Vec<Comment>, Error>)
        ensures
            final(self)@ == old(self)@.receive_comments(index as int, outcome_view(outcome)),
            final(self)@.wf(),
    {
        proof {
            use_type_invariant(&self.items);
        }
        if let Ok(thread) = outcome {
            if index < self.items.items.len() && self.items.items[index].comments.is_none() {
                let kept = drop_empty_comments(thread);
                let ghost before = self.items.items@;
                self.items.items[index].comments = Some(kept);
                proof {
                    let after = self.items.items@;
                    assert(after[index as int]@ == (IssueView {
                        comments: Some(with_content(comment_views(thread@))),
                        ..before[index as int]@
                    }));
                    assert(issue_views(after) == issue_views(before).update(
                        index as int,
                        after[index as int]@,
                    ));
                }
            }
        }
    }

    /// Removes the cursor.
    pub fn unselect(&mut self)
        ensures
            final(self)@ == old(self)@.unselect(),
            final(self)@.wf(),
    {
        self.items.unselect();
    }

    /// Moves the cursor one issue down, from the last issue to the first,
    /// and says whether the comments of the issue that it reaches are to be
    /// fetched.
    pub fn on_down(&mut self) -> (fetch: Option<Fetch>)
        ensures
            final(self)@ == old(self)@.move_down(),
            fetch_view(fetch) == final(self)@.pending_fetch(),
            final(self)@.wf(),
    {
        self.items.next();
        self.pending_fetch()
    }

    /// Moves the cursor one issue up, from the first issue to the last, and
    /// says whether the comments of the issue that it reaches are to be
    /// fetched.
    pub fn on_up(&mut self) -> (fetch: Option<Fetch>)
        ensures
            final(self)@ == old(self)@.move_up(),
            fetch_view(fetch) == final(self)@.pending_fetch(),
            final(self)@.wf(),
    {
        self.items.previous();
        self.pending_fetch()
    }

    /// Applies a key press and says what the caller is to do next.
    pub fn handle(&mut self, input: Input) -> (action: Action)
        ensures
            final(self)@ == old(self)@.after(input),
            action@ == old(self)@.action(input),
            final(self)@.wf(),
    {
        proof {
            use_type_invariant(&self.items);
        }
        match input {
            Input::Quit => Action::Quit,
            Input::ClearSelection => {
                self.unselect();
                Action::Continue
            },
            Input::MoveDown => match self.on_down() {
                Some(fetch) => Action::Fetch(fetch),
                None => Action::Continue,
            },
            Input::MoveUp => match self.on_up() {
                Some(fetch) => Action::Fetch(fetch),
                None => Action::Continue,
            },
            Input::Other => Action::Continue,
        }
    }
}

/// An issue whose comments were never stored asks for them, and stops asking
/// once a thread has arrived: whatever is handed in for it later, the stored
/// thread stays and no further request goes out.
pub proof fn lemma_comments_are_fetched_once(
    app: AppView,
    index: int,
    thread: Seq<CommentView>,
    later: Result<Seq<CommentView>, Error>,
)
    requires
        app.needs_comments(index),
    ensures
        app.ensure_comments_loaded(index) == Some(
            app.client.fetch_comments(app.issues[index].issue_key),
        ),
        app.receive_comments(index, Ok(thread)).ensure_comments_loaded(index) is None,
        app.receive_comments(index, Ok(thread)).receive_comments(index, later)
            == app.receive_comments(index, Ok(thread)),
{
}

/// What is stored of a thread that arrived is the thread without the
/// comments that say nothing: every stored comment has a text that is not
/// empty, and every comment of the thread that has one is stored.
pub proof fn lemma_stored_comments_have_content(
    app: AppView,
    index: int,
    thread: Seq<CommentView>,
)
    requires
        app.needs_comments(index),
    ensures
        app.receive_comments(index, Ok(thread)).issues[index].comments == Some(
            with_content(thread),
        ),
        with_content(thread).len() <= thread.len(),
        forall|k: int|
            0 <= k < with_content(thread).len() ==> (#[trigger] with_content(
                thread,
            )[k]).has_content(),
        forall|k: int|
            0 <= k < thread.len() && thread[k].has_content() ==> with_content(thread).contains(
                #[trigger] thread[k],
            ),
{
    let keep = |c: CommentView| c.has_content();
    thread.lemma_filter_len(keep);
    assert forall|k: int| 0 <= k < with_content(thread).len() implies (#[trigger] with_content(
        thread,
    )[k]).has_content() by {
        thread.lemma_filter_pred(keep, k);
    }
    assert forall|k: int| 0 <= k < thread.len() && thread[k].has_content() implies with_content(
        thread,
    ).contains(#[trigger] thread[k]) by {
        thread.lemma_filter_contains(keep, k);
    }
}

/// A fetch that failed changes nothing: the issue is still without comments
/// and still asks for them with the same request.
pub proof fn lemma_failed_fetch_is_asked_again(app: AppView, index: int, error: Error)
    requires
        app.needs_comments(index),
    ensures
        app.receive_comments(index, Err(error)) == app,
        app.receive_comments(index, Err(error)).issues[index].comments is None,
        app.receive_comments(index, Err(error)).ensure_comments_loaded(index)
            == app.ensure_comments_loaded(index),
        app.ensure_comments_loaded(index) is Some,
{
}

/// No key press and no outcome of a fetch moves the cursor off the list, and
/// only a thread that arrives changes an issue: it changes the comments of
/// that issue and nothing else.
pub proof fn lemma_steps_keep_cursor_and_issues(
    app: AppView,
    input: Input,
    index: int,
    outcome: Result<Seq<CommentView>, Error>,
)
    requires
        app.wf(),
    ensures
        app.after(input).wf(),
        app.after(input).issues == app.issues,
        app.receive_comments(index, outcome).wf(),
        app.receive_comments(index, outcome).cursor == app.cursor,
        app.receive_comments(index, outcome).issues.len() == app.issues.len(),
        forall|k: int|
            0 <= k < app.issues.len() && k != index ==> #[trigger] app.receive_comments(
                index,
                outcome,
            ).issues[k] == app.issues[k],
{
}

/// Whichever way the cursor moves, the issue that it reaches has its
/// comments as soon as the fetch that the move called for has succeeded, and
/// has them already where the move called for none.
pub proof fn lemma_move_loads_selected_comments(
    app: AppView,
    input: Input,
    thread: Seq<CommentView>,
)
    requires
        app.wf(),
        input == Input::MoveDown || input == Input::MoveUp,
    ensures
        match app.action(input) {
            ActionView::Fetch(fetch) => {
                &&& app.after(input).cursor == Some(fetch.index)
                &&& fetch.request == app.client.fetch_comments(
                    app.issues[fetch.index].issue_key,
                )
                &&& app.after(input).receive_comments(
                    fetch.index,
                    Ok(thread),
                ).selected_issue() matches Some(issue) && issue.comments == Some(
                    with_content(thread),
                )
            },
            _ => app.after(input).selected_issue() matches Some(issue) ==> issue.comments is Some,
        },
{
}

/// Comments that are stored stay as they are and are never asked for again,
/// whatever key is pressed and whatever a fetch comes to. So a thread is
/// stored at most once for each issue.
pub proof fn lemma_stored_comments_stay(
    app: AppView,
    stored: int,
    input: Input,
    index: int,
    outcome: Result<Seq<CommentView>, Error>,
)
    requires
        0 <= stored < app.issues.len(),
        app.issues[stored].comments is Some,
    ensures
        app.after(input).issues[stored] == app.issues[stored],
        app.receive_comments(index, outcome).issues[stored] == app.issues[stored],
        app.ensure_comments_loaded(stored) is None,
        !(app.action(input) matches ActionView::Fetch(fetch) && fetch.index == stored),
{
}

/// Over any course of events the list keeps its length and the cursor stays
/// on it, and an issue whose comments are stored is never changed again: its
/// thread is stored once for the lifetime of the state.
pub proof fn lemma_run_keeps_stored_comments(app: AppView, events: Seq<Event>, stored: int)
    requires
        app.wf(),
    ensures
        app.run(events).wf(),
        app.run(events).issues.len() == app.issues.len(),
        0 <= stored < app.issues.len() && app.issues[stored].comments is Some ==> app.run(
            events,
        ).issues[stored] == app.issues[stored],
    decreases events.len(),
{
    if events.len() > 0 {
        lemma_run_keeps_stored_comments(app, events.drop_last(), stored);
    }
}

} // verus!
