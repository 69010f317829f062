//! The decisions behind building a target bundle: which `pg_config` to
//! consult, whether its major version is acceptable, how the generated
//! bindings file and the output archive are named, and which dependency
//! specification the scratch crate gets.
//!
//! The surrounding tool work — spawning `cargo`, `rustfmt` and `tar`,
//! creating the scratch directory, renaming the archive — is ordinary
//! process and file I/O and lives outside this crate; it hands these
//! functions plain values and acts on what they return.

use vstd::prelude::*;

use crate::text::spec_decimal;

verus! {

/// The `pg_config` to consult: the one given, else the first on the
/// search path by its bare name.
pub fn default_pg_config_path(given: Option<String>) -> (r: String)
    ensures
        match given {
            Some(p) => r@ == p@,
            None => r@ == "pg_config"@,
        },
{
    match given {
        Some(p) => p,
        None => String::from_str("pg_config"),
    }
}

/// Whether the consulted installation's major version is acceptable:
/// always when no particular version was demanded, else exactly on a
/// match.
pub fn version_matches(found: u16, expected: Option<u16>) -> (r: bool)
    ensures
        r == match expected {
            None => true,
            Some(e) => e == found,
        },
{
    match expected {
        None => true,
        Some(e) => e == found,
    }
}

/// The name of the raw bindings file the scratch build emits for one major
/// version.
pub fn bindings_filename(major: u16) -> (r: String)
    ensures
        r@ == "pg"@ + spec_decimal(major as nat) + "_raw_bindings.rs"@,
{
    proof {
        reveal_strlit("pg");
        reveal_strlit("_raw_bindings.rs");
    }
    let mut s = String::from_str("pg");
    let digits = crate::text::decimal_string(major as u64);
    s.append(digits.as_str());
    s.append("_raw_bindings.rs");
    proof {
        assert(s@ =~= "pg"@ + spec_decimal(major as nat) + "_raw_bindings.rs"@);
    }
    s
}

/// The name of the finished bundle for one machine architecture.
pub fn bundle_filename(arch: &str) -> (r: String)
    ensures
        r@ == "pgx-target."@ + arch@ + ".tgz"@,
{
    proof {
        reveal_strlit("pgx-target.");
        reveal_strlit(".tgz");
    }
    let mut s = String::from_str("pgx-target.");
    s.append(arch);
    s.append(".tgz");
    proof {
        assert(s@ =~= "pgx-target."@ + arch@ + ".tgz"@);
    }
    s
}

/// The dependency the scratch crate is given: a path override when one was
/// supplied, else the system-bindings crate pinned to this tool's own
/// version.
pub fn pg_sys_dependency(path_override: Option<String>, own_version: &str) -> (r: Vec<String>)
    ensures
        match path_override {
            Some(p) => r@.len() == 3 && r@[0]@ == "pgx-pg-sys"@ && r@[1]@ == "--path"@ && r@[2]@
                == p@,
            None => r@.len() == 1 && r@[0]@ == "pgx-pg-sys@="@ + own_version@,
        },
{
    proof {
        reveal_strlit("pgx-pg-sys");
        reveal_strlit("--path");
        reveal_strlit("pgx-pg-sys@=");
    }
    let mut r: Vec<String> = Vec::new();
    match path_override {
        Some(p) => {
            r.push(String::from_str("pgx-pg-sys"));
            r.push(String::from_str("--path"));
            r.push(p);
        },
        None => {
            let mut s = String::from_str("pgx-pg-sys@=");
            s.append(own_version);
            r.push(s);
        },
    }
    r
}

} // verus!
