//! The records that the issue tracker returns, and what they stand for.

use vstd::prelude::*;

verus! {

/// A person known to the tracker.
#[derive(Debug, Clone, PartialEq, Eq)]
pub struct User {
    pub name: String,
}

/// The workflow state of an issue, with the colour that the server assigns to
/// it as a hex string.
#[derive(Debug, Clone, PartialEq, Eq)]
pub struct Status {
    pub id: u32,
    pub name: String,
    pub color: String,
}

/// One entry of an issue's discussion thread.
#[derive(Debug, Clone, PartialEq, Eq)]
pub struct Comment {
    pub content: Option<String>,
    pub created_user: User,
    pub created: String,
    pub updated: String,
}

/// A work item. `comments` is `None` until the thread has been fetched, and
/// `Some` of an empty list where it has been fetched and holds nothing to
/// show.
#[derive(Debug, Clone, PartialEq, Eq)]
pub struct Issue {
    pub id: u32,
    pub issue_key: String,
    pub summary: String,
    pub description: String,
    pub assignee: Option<User>,
    pub updated: String,
    pub status: Status,
    pub comments: Option<Vec<Comment>>,
}

/// The mathematical content of a [`User`].
pub struct UserView {
    pub name: Seq<char>,
}

/// The mathematical content of a [`Status`].
pub struct StatusView {
    pub id: u32,
    pub name: Seq<char>,
    pub color: Seq<char>,
}

/// The mathematical content of a [`Comment`].
pub struct CommentView {
    pub content: Option<Seq<char>>,
    pub created_user: UserView,
    pub created: Seq<char>,
    pub updated: Seq<char>,
}

/// The mathematical content of an [`Issue`].
#[verifier::ext_equal]
pub struct IssueView {
    pub id: u32,
    pub issue_key: Seq<char>,
    pub summary: Seq<char>,
    pub description: Seq<char>,
    pub assignee: Option<UserView>,
    pub updated: Seq<char>,
    pub status: StatusView,
    pub comments: Option<Seq<CommentView>>,
}

impl View for User {
    type V = UserView;

    open spec fn view(&self) -> UserView {
        UserView { name: self.name@ }
    }
}

impl View for Status {
    type V = StatusView;

    open spec fn view(&self) -> StatusView {
        StatusView { id: self.id, name: self.name@, color: self.color@ }
    }
}

impl View for Comment {
    type V = CommentView;

    open spec fn view(&self) -> CommentView {
        CommentView {
            content: match self.content {
                Some(text) => Some(text@),
                None => None,
            },
            created_user: self.created_user@,
            created: self.created@,
            updated: self.updated@,
        }
    }
}

impl View for Issue {
    type V = IssueView;

    open spec fn view(&self) -> IssueView {
        IssueView {
            id: self.id,
            issue_key: self.issue_key@,
            summary: self.summary@,
            description: self.description@,
            assignee: match self.assignee {
                Some(user) => Some(user@),
                None => None,
            },
            updated: self.updated@,
            status: self.status@,
            comments: match self.comments {
                Some(thread) => Some(comment_views(thread@)),
                None => None,
            },
        }
    }
}

/// The comments of a thread, each as what it stands for.
pub open spec fn comment_views(thread: Seq<Comment>) -> Seq<CommentView> {
    thread.map_values(|c: Comment| c@)
}

/// The issues of a list, each as what it stands for.
pub open spec fn issue_views(issues: Seq<Issue>) -> Seq<IssueView> {
    issues.map_values(|i: Issue| i@)
}

impl CommentView {
    /// The comment says something: its text is there and is not empty.
    pub open spec fn has_content(self) -> bool {
        self.content matches Some(text) && text.len() > 0
    }
}

/// What is left of a thread once the comments that say nothing are dropped.
/// The others keep their order.
pub open spec fn with_content(thread: Seq<CommentView>) -> Seq<CommentView> {
    thread.filter(|c: CommentView| c.has_content())
}

impl Comment {
    /// Whether the comment has a text that is not empty.
    pub fn has_content(&self) -> (yes: bool)
        ensures
            yes == self@.has_content(),
    {
        match &self.content {
            Some(text) => !text.as_str().is_empty(),
            None => false,
        }
    }
}

/// Drops the comments without a text and those whose text is empty. The others
/// keep their order.
pub fn drop_empty_comments(thread: Vec<Comment>) -> (kept: Vec<Comment>)
    ensures
        kept@ == thread@.filter(|c: Comment| c@.has_content()),
        comment_views(kept@) == with_content(comment_views(thread@)),
{
    let ghost all = thread@;
    let mut kept: Vec<Comment> = Vec::new();
    for comment in it: thread
        invariant
            it.seq() == all,
            kept@ == all.take(it.index() as int).filter(|c: Comment| c@.has_content()),
    {
        proof {
            let seen = all.take(it.index() as int);
            assert(all.take(it.index() + 1) =~= seen.push(comment));
            seen.lemma_filter_push(comment, |c: Comment| c@.has_content());
        }
        if comment.has_content() {
            kept.push(comment);
        }
    }
    proof {
        assert(all.take(all.len() as int) =~= all);
        vstd::seq_lib::lemma_filter_view_commute(
            all,
            |c: Comment| c@.has_content(),
            |c: CommentView| c.has_content(),
        );
    }
    kept
}

} // verus!
