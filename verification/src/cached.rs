//! A version line that is worked out on first use and kept from then on.

use crate::version::{VersionInfo, VersionInfoView};
use vstd::prelude::*;

verus! {

/// Build information together with its version line, once that has been
/// asked for. Whoever owns the value owns the line: hand the value, or what
/// `get` returns, to the parts of a program that show it.
pub struct CachedVersion {
    info: VersionInfo,
    line: Option<String>,
}

impl CachedVersion {
    #[verifier::type_invariant]
    spec fn kept_line_is_the_line(self) -> bool {
        self.line matches Some(line) ==> line@ == self.info@.line()
    }

    /// The build information whose line this value hands out.
    pub closed spec fn info(self) -> VersionInfoView {
        self.info@
    }

    /// Whether the line has been worked out already.
    pub closed spec fn is_rendered(self) -> bool {
        self.line is Some
    }

    /// A value that has not worked out its line yet.
    pub fn new(info: VersionInfo) -> (cached: Self)
        ensures
            cached.info() == info@,
            !cached.is_rendered(),
    {
        CachedVersion { info, line: None }
    }

    /// The version line. The first call works it out, every later call hands
    /// out what the first one kept.
    pub fn get(&mut self) -> (line: &str)
        ensures
            line@ == old(self).info().line(),
            final(self).info() == old(self).info(),
            final(self).is_rendered(),
            old(self).is_rendered() ==> *final(self) == *old(self),
    {
        proof {
            use_type_invariant(&*self);
        }
        if self.line.is_none() {
            self.line = Some(self.info.to_string());
        }
        self.line.as_ref().unwrap().as_str()
    }
}

} // verus!
