//! Core of a local-first password vault: password-based authenticated
//! encryption of field values, and a compiler from an abstract query
//! description to parameterised SQL.

pub mod backup;
pub mod encryption;
pub mod query;
pub mod records;
pub mod schedule;
pub mod sql_builder;
pub mod validation;

pub use backup::{Backup, BackupError, BackupRotationConfig, Config, Restore, ScheduleConfig};
pub use encryption::{decrypt, decrypt_blob, encrypt, parse_blob, BlobParts, EncryptionError};
pub use query::{
    Aggregate, AggregateOperation, FIlterParam, Filter, FilterBuilder, FilterOperator, Glue, Group,
    HttpQuery, HttpQueryBuilder, OrderBy, OrderDirection, QueryValue, Select, Settings,
};
pub use records::{IdentityCard, Login, Note, Tag, User};
pub use schedule::{Schedule, Scheduler};
pub use sql_builder::{SqLiteQueryBuilder, SqliteQueryBuilderError, SqliteValue};
pub use validation::{
    is_valid_password, Claims, JwtTokens, LoginData, RefreshTokenClaims, RegisterData,
};
