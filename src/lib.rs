//! Model-file schema and memory budgeting for a LLaMA inference session:
//! the file magic values and format versions, the hyperparameter record of a
//! trained model, its size class, and the per-class buffer budgets.
pub mod format;
pub mod hparams;
pub mod memory;
pub mod session;
