//! Assembling the node's client-side JavaScript bundle.
//!
//! Reading the source files and writing the bundle happen outside this
//! crate; the assembly itself — which sources go in, in which order —
//! is decided here.

use vstd::prelude::*;
use vstd::string::StringExecFns;

verus! {

/// Builds the client JavaScript bundle.
pub struct KongJSBuilder;

/// The characters of an optional source: empty when absent.
pub open spec fn spec_opt_source(src: Option<&str>) -> Seq<char> {
    match src {
        Some(s) => s@,
        None => Seq::empty(),
    }
}

impl KongJSBuilder {
    /// Assembles the output source: the main script, then the accounts,
    /// login and properties scripts, each included exactly when the
    /// configuration asked for it (the caller hands `Some` for those).
    pub fn build(
        main_js: &str,
        accounts_js: Option<&str>,
        login_js: Option<&str>,
        properties_js: Option<&str>,
    ) -> (r: String)
        ensures
            r@ == main_js@ + spec_opt_source(accounts_js) + spec_opt_source(login_js)
                + spec_opt_source(properties_js),
    {
        let mut output_src = String::new();
        output_src.append(main_js);

        if let Some(accounts) = accounts_js {
            output_src.append(accounts);
        }
        if let Some(login) = login_js {
            output_src.append(login);
        }
        if let Some(properties) = properties_js {
            output_src.append(properties);
        }
        proof {
            assert(output_src@ =~= main_js@ + spec_opt_source(accounts_js) + spec_opt_source(
                login_js,
            ) + spec_opt_source(properties_js));
        }
        output_src
    }
}

} // verus!
