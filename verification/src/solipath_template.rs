//! Templates: instruction fragments that several versions of a dependency
//! share, with variables that each reference fills in.

pub mod looping_template_retriever;
pub mod template_retriever;
pub mod template_variable_replacer;
