//! Key bindings and where they are stored.
use vstd::prelude::*;

verus! {

/// Which keys, by name, rotate the motor each way.
#[derive(Debug)]
pub struct KeyBindings {
    pub rotate_clockwise: String,
    pub rotate_counter_clockwise: String,
}

impl Default for KeyBindings {
    /// Left arrow turns clockwise, right arrow counter-clockwise.
    fn default() -> (r: KeyBindings)
        ensures
            r.rotate_clockwise@ == "ArrowLeft"@,
            r.rotate_counter_clockwise@ == "ArrowRight"@,
    {
        KeyBindings {
            rotate_clockwise: String::from_str("ArrowLeft"),
            rotate_counter_clockwise: String::from_str("ArrowRight"),
        }
    }
}

/// The file that holds the key bindings, as path components: `<config>/<app>/key_bindings.json`
/// under the platform's configuration directory, or `local/configuration/key_bindings.json`
/// where the platform has none.
pub open spec fn key_bindings_path_spec(native_config_dir: Option<Seq<char>>, app_name: Seq<char>) -> Seq<
    Seq<char>,
> {
    match native_config_dir {
        Some(dir) => seq![dir, app_name, "key_bindings.json"@],
        None => seq!["local"@, "configuration"@, "key_bindings.json"@],
    }
}

/// Where the key bindings are stored, given the platform's configuration directory, if it has
/// one, and the application's name.
pub fn key_bindings_path(native_config_dir: Option<String>, app_name: &str) -> (r: Vec<String>)
    ensures
        r@.map_values(|c: String| c@) == key_bindings_path_spec(
            match native_config_dir {
                Some(d) => Some(d@),
                None => None,
            },
            app_name@,
        ),
{
    let mut r: Vec<String> = Vec::new();
    match native_config_dir {
        Some(dir) => {
            r.push(dir);
            r.push(String::from_str(app_name));
        },
        None => {
            r.push(String::from_str("local"));
            r.push(String::from_str("configuration"));
        },
    }
    r.push(String::from_str("key_bindings.json"));
    assert(r@.map_values(|c: String| c@) =~= key_bindings_path_spec(
        match native_config_dir {
            Some(d) => Some(d@),
            None => None,
        },
        app_name@,
    ));
    r
}

} // verus!
