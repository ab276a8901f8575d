//! Assembly rules for turning a paginated comic title into one bookmarked PDF:
//! page file naming, the bookmark ledger, the retry schedule, download
//! planning, tool invocation and the chapter-by-chapter pipeline.

pub mod decimal;
pub mod naming;
pub mod ledger;
pub mod retry;
pub mod download;
pub mod tools;
pub mod pipeline;
