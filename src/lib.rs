//! Execution core of an interactive command shell: tokenizing a line,
//! extracting redirections, splitting pipelines, locating executables on
//! `PATH`, the builtin commands, and the pipeline executor's decisions.
//!
//! Each module states its behaviour over spec functions on character
//! sequences; the executor is a state machine whose outside work (looking
//! files up, spawning and waiting on processes, writing output) is done by
//! its caller, which reports each outcome back as an event.

pub mod builtins;
pub mod completion;
pub mod executor;
pub mod numbers;
pub mod path;
pub mod pipeline;
pub mod redirect;
pub mod text;
pub mod tokenizer;

pub use builtins::{
    builtin_names, cd_target, echo_output, exit_code, history_output, is_builtin, lookup_builtin,
    type_output, Builtin, Found, Need, Session,
};
pub use completion::completion_matches;
pub use executor::{
    failure_message, Action, Carry, Event, Executor, Failure, Output, Phase, Sink,
    SIGNALED_STATUS,
};
pub use numbers::{parse_i32, push_decimal};
pub use path::{is_executable_mode, join_path, path_candidates, select_executable, split_path};
pub use pipeline::{build_pipeline, parse_line, split_pipeline, Stage};
pub use redirect::{
    classify_token, parse_redirection, Mode, Redirect, Redirections, Stream, TokenClass,
};
pub use text::{same_text, starts_with};
pub use tokenizer::parse_arguments;
