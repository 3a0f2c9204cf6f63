//! Command-line tools around the E equational theorem prover: option
//! handling, help rendering, clause readers and the small network protocols
//! of the client and server programs, each with its contract.
pub mod text;
pub mod diag;
pub mod version;
pub mod cmdline;
pub mod help;
pub mod session;
pub mod resources;
pub mod dpll;
pub mod scanner;
pub mod clause;
pub mod e_deduction_server;
pub mod interactive;
pub mod tcp;
pub mod e_client;
pub mod e_stratpar;
pub mod e_ltb_runner;
pub mod e_server;
pub mod pcl;
pub mod checkproof;
pub mod e_axfilter;
pub mod direct_examples;
pub mod ekb_create;
pub mod classify_problem;
pub mod enormalizer;
pub mod eground;
pub mod epatternize;
