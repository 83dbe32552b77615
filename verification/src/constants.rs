//! Names shared by the filters, the keys and the records.
use vstd::prelude::*;

verus! {

// Metric keys
pub const TOTAL_KEY: &'static str = "total";
pub const DAILY_KEY: &'static str = "daily";
pub const MONTHLY_KEY: &'static str = "monthly";
pub const PLATFORMS_KEY: &'static str = "platforms";
pub const CREATED_AT_KEY: &'static str = "createdAt";

// Filter keys and operators
pub const DELETED_FILTER: &'static str = "deleted";
pub const OWNERSHIP_FILTER: &'static str = "ownership.buildableId";
pub const ENVIRONMENT_FILTER: &'static str = "environment";
pub const DUAL_ENVIRONMENT_HEADER: &'static str = "x-pica-show-all-environments";
pub const LIMIT_FILTER: &'static str = "limit";
pub const CONTAINS_FILTER: &'static str = "$in";
pub const REGEX_FILTER: &'static str = "$regex";
pub const OPTIONS_FILTER: &'static str = "$options";
pub const SKIP_FILTER: &'static str = "skip";

// Connection keys
pub const DEFAULT_NAMESPACE: &'static str = "default";
pub const APP_LABEL: &'static str = "app";
pub const DATABASE_TYPE_LABEL: &'static str = "database-type";
pub const JWT_SECRET_REF_KEY: &'static str = "jwt-secret";
pub const JWT_SECRET_REF_NAME: &'static str = "event-secrets";

// Pagination
pub const MAX_LIMIT: usize = 100;

} // verus!
