//! Validation of variant call files against a configurable catalogue of rules.
//!
//! A variant call file is a run of lines: a preamble of meta-information
//! lines, which begin with `##`, a header line, which begins with `#` and
//! names the columns, and data records, whose fields tabs separate. A
//! [`validator::engine::Validator`] takes the lines in order, hands each to
//! the validators that it concerns, and makes a
//! [`validator::ValidationReport`] at the end of the file. The four
//! validators keep as much of the file as their rules read: the file as a
//! whole ([`validator::global`]), the preamble
//! ([`validator::meta_information`]), the header ([`validator::header`]) and
//! the records ([`validator::data`]). Each rule can be switched off and has a
//! level and a message template of its own ([`config::Config`]).
//!
//! What a rule finds is a function of what the validator has seen and of the
//! rule's configuration, and the contracts state it as one. The text of a
//! message is made by a template engine, which may look at the clock or the
//! environment; of a message the contracts state which template and which
//! values it was rendered from. So the model of a validator or of a report
//! holds everything but the message texts, and [`laws`] states over these
//! models that rules report independently of one another and that validation
//! is repeatable.

pub mod config;
pub mod errors;
pub mod laws;
pub mod pattern;
pub mod template;
pub mod text;
pub mod unicode;
pub mod validator;
pub mod vcf;
