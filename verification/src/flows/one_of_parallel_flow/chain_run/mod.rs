pub(super) mod poll;
pub(super) mod run;
pub(super) mod spawn;
