//! Federation engine of a link-aggregation server: addressing of local
//! entities, routing of requests, the decisions taken on inbound and
//! outbound activities, and the bookkeeping of the delivery queue.

pub mod activity;
pub mod addressing;
pub mod auth;
pub mod comments;
pub mod config;
pub mod content;
pub mod crypto;
pub mod delivery;
pub mod documents;
pub mod fetcher;
pub mod host;
pub mod ids;
pub mod inbox;
pub mod listing;
pub mod lookup;
pub mod posts;
pub mod queue;
pub mod reading;
pub mod response;
pub mod routes;
pub mod signature;
pub mod store;
pub mod text;
pub mod timestamp;

pub use activity::{PostInfo, PostInfoOwned};
pub use auth::{authenticate, require_login};
pub use comments::{on_community_add_comment, on_post_add_comment, CommentInfo};
pub use content::render_markdown;
pub use host::{get_actor_host, get_actor_host_or_unknown, get_path_and_query, get_url_host};
pub use ids::{
    APIDOrLocal, ActorLocalRef, CommentLocalID, CommunityLocalID, PostLocalID, ThingLocalRef,
    UserLocalID,
};
pub use posts::on_community_add_post;
pub use queue::enqueue_task;
pub use response::{empty_response, res_to_error, simple_response, Error};
pub use routes::api::route_api;
pub use routes::apub::communities::route_communities;
pub use timestamp::{TimestampOrLatest, TimestampOrLatestParseError};
