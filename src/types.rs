use vstd::prelude::*;

verus! {

/// Process-wide settings, read-only once the server runs.
#[derive(Debug)]
pub struct Options {
    /// Base URI of the source-control host's REST API.
    pub gitlab_uri: String,
    /// Token sent as `PRIVATE-TOKEN`; empty means no token was configured.
    pub gitlab_token: String,
    /// Branch from which the label configuration is read.
    pub config_branch: String,
    pub host: String,
    pub port: u16,
    pub log_level: String,
}

/// A decoded webhook delivery.
#[derive(Debug)]
pub struct Webhook {
    pub event_type: String,
    pub project: Project,
    pub object_attributes: ObjectAttributes,
}

#[derive(Debug)]
pub struct Project {
    pub id: u64,
}

#[derive(Debug)]
pub struct ObjectAttributes {
    pub iid: u64,
    pub action: Option<String>,
}

/// The files a merge request changes.
#[derive(Debug)]
pub struct Changes {
    pub changes: Vec<Change>,
}

#[derive(Debug)]
pub struct Change {
    pub new_path: String,
}

/// The label configuration: one rule per label, in configuration order.
#[derive(Debug)]
pub struct Config {
    pub labels: Vec<Label>,
}

/// The body of the request that sets a merge request's labels.
#[derive(Debug)]
pub struct Labels {
    pub labels: Vec<String>,
}

/// A label rule: the label applies when a changed path lies under one of `paths`.
#[derive(Debug)]
pub struct Label {
    pub name: String,
    pub paths: Vec<String>,
}

/// The paths of a change set, as character sequences.
pub open spec fn change_paths(changes: Seq<Change>) -> Seq<Seq<char>> {
    Seq::new(changes.len(), |j: int| changes[j].new_path@)
}

/// The prefixes of a label rule, as character sequences.
pub open spec fn label_prefixes(label: Label) -> Seq<Seq<char>> {
    Seq::new(label.paths@.len(), |i: int| label.paths@[i]@)
}

} // verus!

verus! {

/// The request methods the library tells apart.
#[derive(PartialEq, Eq, Structural, Clone, Copy, Debug)]
pub enum HttpMethod {
    Get,
    Post,
    Put,
    Other,
}

} // verus!
