pub(super) mod poll;
pub(super) mod run;
