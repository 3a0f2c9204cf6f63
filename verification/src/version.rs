//! Version strings and the common footer of the help texts.
use vstd::prelude::*;

verus! {

/// The version of the tools.
pub const VERSION: &'static str = "3.2.5";

/// The release name of this version.
pub const E_NICKNAME: &'static str = "Puttabong Moondrop";

/// The maintainer's mail address.
pub const STS_MAIL: &'static str = "schulz@eprover.org";

/// The project's web page.
pub const E_URL: &'static str = "http://www.eprover.org";

/// The footer shared by the current help texts.
pub const FOOTER: &'static str = "Copyright 1998-2026 by Stephan Schulz, schulz@eprover.org,
and the E contributors (see DOC/CONTRIBUTORS).

This program is a part of the distribution of the equational theorem
prover E. You can find the latest version of the E distribution
as well as additional information at
http://www.eprover.org

This program is free software; you can redistribute it and/or modify
it under the terms of the GNU General Public License as published by
the Free Software Foundation; either version 2 of the License, or
(at your option) any later version.

Bug reports for the first-order prover should be sent to <schulz@eprover.org>.
Bug reports with respect to the HO-version should be sent to or at least copied to
<jasmin.blanchette@gmail.com>.
";

/// The footer shared by the current help texts.
pub fn footer() -> (s: String)
    ensures
        s@ == FOOTER@,
{
    String::from_str(FOOTER)
}

} // verus!
