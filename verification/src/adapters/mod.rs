pub mod reply;
pub mod reply_laws;
pub mod json;
pub mod acpx;
pub mod prompt;
pub mod shell;
pub mod process;
pub mod repository;
pub mod feishu;
pub mod feishu_out;
pub mod acpx_laws;
pub mod prompt_laws;
pub mod feishu_laws;
pub mod event_laws;
pub mod call_laws;
pub mod answer_laws;
pub mod repository_laws;
pub mod delivery_laws;
