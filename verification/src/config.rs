//! Environment configuration: the port the server listens on and the data
//! directory it stores its collections under. Both have hard-coded defaults;
//! the driver reads the raw override and home directory from the host and
//! the decisions are made here.

use vstd::prelude::*;

use crate::errors::StoreError;
use crate::text::{parse_u16, spec_all_digits, spec_decimal_val};

verus! {

/// The port used when no valid override is given.
pub const DEFAULT_PORT: u16 = 8001;

/// The port a raw override resolves to: its decimal value when it is a
/// decimal numeral that fits a port number, the default otherwise.
pub open spec fn spec_resolve_port(raw: Option<Seq<char>>) -> int {
    match raw {
        Option::Some(s) => {
            if s.len() > 0 && spec_all_digits(s) && spec_decimal_val(s) <= u16::MAX {
                spec_decimal_val(s)
            } else {
                DEFAULT_PORT as int
            }
        },
        Option::None => DEFAULT_PORT as int,
    }
}

/// Resolves the port override the environment supplied, falling back to the
/// default on anything that is not a port number.
pub fn resolve_port(raw: &Option<String>) -> (r: u16)
    ensures
        r as int == spec_resolve_port(
            match raw {
                Option::Some(s) => Option::Some(s@),
                Option::None => Option::None,
            },
        ),
{
    match raw {
        Option::Some(s) => match parse_u16(s.as_str()) {
            Option::Some(p) => p,
            Option::None => DEFAULT_PORT,
        },
        Option::None => DEFAULT_PORT,
    }
}

/// The platforms whose conventional data roots differ.
#[derive(Clone, Copy, Debug, PartialEq, Eq, Structural)]
pub enum Platform {
    MacOs,
    Windows,
    Linux,
    Other,
}

/// The platform's conventional per-user application-data root, relative to
/// the home directory.
pub open spec fn spec_data_root(platform: Platform) -> Seq<char> {
    match platform {
        Platform::MacOs => "/Library/Application Support/"@,
        Platform::Windows => "/AppData/Roaming/"@,
        Platform::Linux => "/.local/share/"@,
        Platform::Other => "/.mission-ai/"@,
    }
}

/// The application's data-directory name; development builds keep their
/// data apart from release builds.
pub open spec fn spec_app_dir_name(dev: bool) -> Seq<char> {
    if dev {
        "network-mock-local-dev"@
    } else {
        "network-mock-local"@
    }
}

/// The default data directory for the vector server's collections.
pub open spec fn spec_default_data_dir(home: Seq<char>, platform: Platform, dev: bool) -> Seq<
    char,
> {
    home + spec_data_root(platform) + spec_app_dir_name(dev) + "/chromadb"@
}

/// Derives the default data directory under the user's home directory; an
/// unknown home directory is an error the caller reports with a restart
/// hint.
pub fn default_data_dir(home: &Option<String>, platform: Platform, dev: bool) -> (r: Result<
    String,
    StoreError,
>)
    ensures
        match home {
            Option::Some(h) => r is Ok && r->Ok_0@ == spec_default_data_dir(h@, platform, dev),
            Option::None => r is Err && r->Err_0 is OperationFailed,
        },
{
    match home {
        Option::Some(h) => {
            let root: &'static str = match platform {
                Platform::MacOs => "/Library/Application Support/",
                Platform::Windows => "/AppData/Roaming/",
                Platform::Linux => "/.local/share/",
                Platform::Other => "/.mission-ai/",
            };
            let name: &'static str = if dev {
                "network-mock-local-dev"
            } else {
                "network-mock-local"
            };
            Result::Ok(h.clone().concat(root).concat(name).concat("/chromadb"))
        },
        Option::None => Result::Err(
            StoreError::OperationFailed(
                "the home directory could not be determined; restart the application".to_owned(),
            ),
        ),
    }
}

} // verus!
