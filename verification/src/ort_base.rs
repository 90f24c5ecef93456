//! The session-holder abstraction: anything that owns one backend session
//! can have it built and installed through the staged factory pipeline.

use vstd::prelude::*;

use crate::config::InitConfig;
use crate::errors::InitError;
use crate::session::build_session;

verus! {

/// A holder of one backend execution session. `load_model` drives the
/// whole factory pipeline and installs the committed session; a failed
/// build leaves the holder exactly as it was.
pub trait OrtBase: Sized {
    /// Whether a session is currently installed.
    spec fn has_session(&self) -> bool;

    /// Install a committed session.
    fn set_sess(&mut self, sess: ort::session::Session)
        ensures
            final(self).has_session(),
    ;

    /// The installed session, if any.
    fn sess(&self) -> (r: Option<&ort::session::Session>)
        ensures
            r is Some <==> self.has_session(),
    ;

    /// Build a session from a model file through the staged pipeline and
    /// install it. On any stage failure the holder is untouched and the
    /// error names the failed stage.
    fn load_model(&mut self, model_path: &str, config: &InitConfig) -> (r: Result<(), InitError>)
        ensures
            r is Ok ==> final(self).has_session(),
            r is Err ==> crate::session::is_session_stage(r->Err_0) && *final(self) == *old(self),
    {
        match build_session(model_path, config) {
            Ok(s) => {
                self.set_sess(s);
                Ok(())
            },
            Err(e) => Err(e),
        }
    }
}

/// One independently invocable unit of backend inference capability: a
/// slot for a single committed session.
pub struct Instance {
    sess: Option<ort::session::Session>,
}

impl Instance {
    /// A fresh holder with no session installed.
    pub fn new() -> (i: Instance)
        ensures
            !i.has_session(),
    {
        Instance { sess: None }
    }
}

impl OrtBase for Instance {
    closed spec fn has_session(&self) -> bool {
        self.sess is Some
    }

    fn set_sess(&mut self, sess: ort::session::Session) {
        self.sess = Some(sess);
    }

    fn sess(&self) -> (r: Option<&ort::session::Session>) {
        self.sess.as_ref()
    }
}

} // verus!
