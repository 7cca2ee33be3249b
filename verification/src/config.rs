//! Configuration-directory path composition.  Reading the environment and
//! the home directory is the host's business; these functions compute the
//! paths from those plain values.

use vstd::prelude::*;

use crate::pathux::join_one;
use crate::pathux::join_push;

verus! {

/// The configuration directory an override value selects: an absent or
/// empty override falls back to the default under the home directory, a
/// `~`-prefixed one is expanded against the home directory, and any other
/// is taken as it stands.
pub open spec fn resolve_config_dir_spec(dir_override: Option<Seq<char>>, home: Seq<char>) -> Seq<
    char,
> {
    match dir_override {
        Some(d) => if d.len() == 0 {
            join_one(home, ".config/mcmmtk_gtk"@)
        } else if d[0] == '~' {
            if d.len() == 1 {
                home
            } else if d[1] == '/' {
                join_one(home, d.skip(2))
            } else {
                d
            }
        } else {
            d
        },
        None => join_one(home, ".config/mcmmtk_gtk"@),
    }
}

/// Resolves the configuration directory from the override variable's
/// value, if set, and the home directory.
pub fn resolve_config_dir(dir_override: Option<&str>, home_dir: &str) -> (r: String)
    ensures
        r@ == resolve_config_dir_spec(
            match dir_override {
                Some(d) => Some(d@),
                None => None,
            },
            home_dir@,
        ),
{
    match dir_override {
        None => default_config_dir(home_dir),
        Some(d) => {
            let dlen = d.unicode_len();
            if dlen == 0 {
                default_config_dir(home_dir)
            } else if d.get_char(0) == '~' {
                if dlen == 1 {
                    String::from_str(home_dir)
                } else if d.get_char(1) == '/' {
                    let mut out = String::from_str(home_dir);
                    join_push(&mut out, d.substring_char(2, dlen));
                    proof {
                        assert(d@.subrange(2, dlen as int) =~= d@.skip(2));
                    }
                    out
                } else {
                    String::from_str(d)
                }
            } else {
                String::from_str(d)
            }
        },
    }
}

/// The default configuration directory under the home directory.
fn default_config_dir(home_dir: &str) -> (r: String)
    ensures
        r@ == join_one(home_dir@, ".config/mcmmtk_gtk"@),
{
    let mut out = String::from_str(home_dir);
    join_push(&mut out, ".config/mcmmtk_gtk");
    out
}

/// The GUI state directory under the configuration directory.
pub fn gui_config_dir_path(config_dir: &str) -> (r: String)
    ensures
        r@ == join_one(config_dir@, "gui"@),
{
    let mut out = String::from_str(config_dir);
    join_push(&mut out, "gui");
    out
}

/// The recollections file (remembered window geometry and the like) under
/// the GUI state directory.
pub fn recollection_file_path(config_dir: &str) -> (r: String)
    ensures
        r@ == join_one(join_one(config_dir@, "gui"@), "recollections"@),
{
    let mut out = gui_config_dir_path(config_dir);
    join_push(&mut out, "recollections");
    out
}

} // verus!
