//! Merge-request labeler: routes webhook deliveries, decides the steps of one
//! labeling run and derives labels from the paths a merge request changes.
pub mod client;
pub mod functions;
pub mod processor;
pub mod router;
pub mod text;
pub mod types;
pub mod urls;

pub use client::{check_status, plan_for_scheme, plan_request, RequestPlan};
pub use functions::filter_labels;
pub use processor::{verify_action, Action, Event, Labeler, ProcessError, Skip, Stage};
pub use router::{parse_route, verify_headers, HeaderError, Routed};
pub use types::{
    Change, Changes, Config, HttpMethod, Label, Labels, ObjectAttributes, Options, Project, Webhook,
};
pub use urls::{changes_url, config_url, labels_url};
