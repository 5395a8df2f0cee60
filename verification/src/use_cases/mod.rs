pub mod config;
pub mod errors;
pub mod support;
pub mod finish_work_day;
pub mod confirm_ready_to_continue;
pub mod finish_hour_interval;
pub mod mark_returned_from_rest;
pub mod submit_ten_min_answer;
pub mod advance_open_ten_min_checks;
pub mod prompt_continue_if_idle;
pub mod remind_awaiting_resume;
pub mod suggest_lunch_after_nth_interval;
pub mod task_commands;
pub mod day_commands;
pub mod list_available_tasks;
pub mod report_dto;
pub mod build_day_report;
pub mod build_period_report;
pub mod export_day_report_csv;
pub mod submit_failure_reason;
