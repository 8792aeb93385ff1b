//! What a host application implements to be driven.
use crate::config::Application;
use vstd::prelude::*;

verus! {

#[verifier::external_type_specification]
#[verifier::external_body]
pub struct ExAnyhowError(anyhow::Error);

/// The callbacks of a host application. Both do nothing by default.
pub trait Runnable: Sized {
    /// Called once, before any `update`. A failure ends the run.
    fn initialize(&mut self, app: &mut Application) -> (r: Result<(), anyhow::Error>)
        default_ensures
            r is Ok,
            *final(self) == *old(self),
            *final(app) == *old(app),
    {
        Ok(())
    }

    /// Called once per frame. A failure is reported and the run goes on.
    fn update(&mut self, app: &mut Application) -> (r: Result<(), anyhow::Error>)
        default_ensures
            r is Ok,
            *final(self) == *old(self),
            *final(app) == *old(app),
    {
        Ok(())
    }
}

/// Something that runs a lifecycle to its end. By default it runs nothing.
pub trait Runner<R: Runnable>: Sized {
    fn run(&mut self, runnable: R) -> (r: Result<(), anyhow::Error>)
        default_ensures
            r is Ok,
            *final(self) == *old(self),
    {
        Ok(())
    }
}

} // verus!
