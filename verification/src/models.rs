//! Domain data as fetched from the issue tracker: teams, per-team issue
//! summaries, and the full detail of one issue. Values are immutable once
//! fetched; each collection is replaced wholesale on a fresh load.

use vstd::prelude::*;

verus! {

/// A team: opaque identity, display name, and how many issues it has.
pub struct Team {
    pub id: String,
    pub name: String,
    pub issue_count: i32,
}

impl Clone for Team {
    fn clone(&self) -> (r: Self)
        ensures
            r == *self,
    {
        Team { id: self.id.clone(), name: self.name.clone(), issue_count: self.issue_count }
    }
}

/// The wholesale-replaced collection of teams, as one load returns it.
pub struct TeamsWrapper {
    pub nodes: Vec<Team>,
}

/// One issue as listed for a team: identity, title, and an optional
/// description. Absence and empty string are distinct: absence renders
/// "No description" in the list row.
pub struct TeamIssue {
    pub id: String,
    pub title: String,
    pub description: Option<String>,
}

impl Clone for TeamIssue {
    fn clone(&self) -> (r: Self)
        ensures
            r == *self,
    {
        TeamIssue {
            id: self.id.clone(),
            title: self.title.clone(),
            description: match &self.description {
                Some(d) => Some(d.clone()),
                None => None,
            },
        }
    }
}

/// The wholesale-replaced collection of one team's issues.
pub struct IssuesWrapper {
    pub nodes: Vec<TeamIssue>,
}

/// One comment body on an issue.
pub struct Comment {
    pub body: String,
}

impl Clone for Comment {
    fn clone(&self) -> (r: Self)
        ensures
            r == *self,
    {
        Comment { body: self.body.clone() }
    }
}

/// The ordered comments of one issue.
pub struct CommentsWrapper {
    pub nodes: Vec<Comment>,
}

/// The full detail of one issue: title, description (empty string means
/// no description section is rendered), ordered comments, canonical URL.
pub struct Issue {
    pub title: String,
    pub description: String,
    pub comments: CommentsWrapper,
    pub url: String,
}

} // verus!
