//! Profit and loss: the result of a position, transactions and their
//! realized result, P&L range buckets and the records of a P&L simulation.

pub mod utils;

pub use utils::PnL;
pub mod transaction;
pub use transaction::Transaction;
pub mod model;
pub use model::PnLRange;
pub mod metrics;
pub use metrics::{create_pnl_metrics_document, PnLMetrics, PnLMetricsDocument, PnLMetricsStep};
pub mod adjustment;
pub mod traits;
pub use adjustment::{DeltaAdjustment, DeltaAdjustmentSameSize};
pub use traits::TransactionAble;
