//! The registration generator's contract.
//!
//! Command handlers live as individual source units inside a command
//! directory tree; sub-directories become nested namespaces. For every unit
//! found there — except the unit reserved as a namespace-root marker — one
//! registration is produced: the command name is the unit's base name
//! prefixed with `!`, and the handler type name is the base name with its
//! first letter capitalized, qualified by the namespace path. A project with
//! no command directory is valid and yields no registrations.
//!
//! Walking the real filesystem and emitting source text are the host's
//! business; this module fixes, for a given sequence of discovered units,
//! exactly which registrations exist.

use vstd::prelude::*;

verus! {

/// One discovered handler source unit: the directory names between the
/// command directory and the unit (outermost first), and the unit's file
/// name.
pub struct CommandUnit {
    pub namespace: Vec<String>,
    pub file_name: String,
}

/// One registration the generator produces: a command name such as `!ping`,
/// and the namespace-qualified handler type name such as `mod::Deep`.
pub struct Registration {
    pub command_name: String,
    pub handler_path: String,
}

impl View for Registration {
    type V = (Seq<char>, Seq<char>);

    open spec fn view(&self) -> (Seq<char>, Seq<char>) {
        (self.command_name@, self.handler_path@)
    }
}

/// Index of the last `.` in `s`, or `None` when `s` has none.
pub open spec fn last_dot_index(s: Seq<char>) -> Option<int>
    decreases s.len(),
{
    if s.len() == 0 {
        None
    } else if s.last() == '.' {
        Some(s.len() - 1)
    } else {
        last_dot_index(s.drop_last())
    }
}

/// A file name's base name: everything before the last `.`, or the whole
/// name when it has no extension.
pub open spec fn base_of(s: Seq<char>) -> Seq<char> {
    match last_dot_index(s) {
        Some(i) => s.take(i),
        None => s,
    }
}

/// The upper-case form of an ASCII lower-case letter; any other character is
/// unchanged.
pub open spec fn upper_char(c: char) -> char {
    if 97 <= c as u32 && c as u32 <= 122 {
        (((c as u32) - 32) as u8) as char
    } else {
        c
    }
}

/// `s` with its first character capitalized.
pub open spec fn capitalized(s: Seq<char>) -> Seq<char> {
    if s.len() == 0 {
        s
    } else {
        seq![upper_char(s[0])] + s.drop_first()
    }
}

/// The namespace qualifier for a unit: each enclosing directory name in
/// order, each followed by `::`.
pub open spec fn namespace_prefix(ns: Seq<String>) -> Seq<char>
    decreases ns.len(),
{
    if ns.len() == 0 {
        Seq::<char>::empty()
    } else {
        namespace_prefix(ns.drop_last()) + ns.last()@ + "::"@
    }
}

/// The handler type name a unit must expose: the capitalized base name,
/// qualified by the unit's namespace.
pub open spec fn handler_path_of(ns: Seq<String>, base: Seq<char>) -> Seq<char> {
    namespace_prefix(ns) + capitalized(base)
}

/// The command name derived from a base name: the base name prefixed with
/// `!`.
pub open spec fn command_name_of(base: Seq<char>) -> Seq<char> {
    "!"@ + base
}

/// Whether a base name is the reserved namespace-root marker, which yields
/// no registration of its own.
pub open spec fn is_marker(base: Seq<char>) -> bool {
    base == "mod"@
}

/// The registrations for a sequence of discovered units, in discovery order:
/// one per unit, marker units excepted.
pub open spec fn registrations_of(units: Seq<CommandUnit>) -> Seq<(Seq<char>, Seq<char>)>
    decreases units.len(),
{
    if units.len() == 0 {
        Seq::<(Seq<char>, Seq<char>)>::empty()
    } else {
        let rest = registrations_of(units.drop_last());
        let u = units.last();
        let base = base_of(u.file_name@);
        if is_marker(base) {
            rest
        } else {
            rest.push((command_name_of(base), handler_path_of(u.namespace@, base)))
        }
    }
}

/// Any dot whose successors are all dot-free is the last dot.
proof fn lemma_last_dot_index_is(s: Seq<char>, i: int)
    requires
        0 <= i < s.len(),
        s[i] == '.',
        forall|k: int| i < k < s.len() ==> s[k] != '.',
    ensures
        last_dot_index(s) == Some(i),
    decreases s.len(),
{
    if i == s.len() - 1 {
    } else {
        lemma_last_dot_index_is(s.drop_last(), i);
    }
}

/// A dot-free name has no last dot.
proof fn lemma_last_dot_index_none(s: Seq<char>)
    requires
        forall|k: int| 0 <= k < s.len() ==> s[k] != '.',
    ensures
        last_dot_index(s) is None,
    decreases s.len(),
{
    if s.len() > 0 {
        lemma_last_dot_index_none(s.drop_last());
    }
}

/// The base name of a file name: everything before the last `.`, or the
/// whole name when it has no extension.
pub fn base_name(file_name: &str) -> (r: String)
    ensures
        r@ == base_of(file_name@),
{
    let n = file_name.unicode_len();
    let mut j: usize = n;
    while j > 0 && file_name.get_char(j - 1) != '.'
        invariant
            n == file_name@.len(),
            0 <= j <= n,
            forall|k: int| j <= k < n ==> file_name@[k] != '.',
        decreases j,
    {
        j = j - 1;
    }
    if j == 0 {
        proof {
            lemma_last_dot_index_none(file_name@);
        }
        file_name.to_owned()
    } else {
        proof {
            lemma_last_dot_index_is(file_name@, j - 1);
        }
        file_name.substring_char(0, j - 1).to_owned()
    }
}

/// `s` with its first character capitalized: an ASCII lower-case first
/// letter becomes upper case, anything else is kept.
pub fn capitalize_first(s: &str) -> (r: String)
    ensures
        r@ == capitalized(s@),
{
    let n = s.unicode_len();
    if n == 0 {
        let r = String::new();
        proof {
            assert(r@ =~= capitalized(s@));
        }
        return r;
    }
    let c = s.get_char(0);
    let v = c as u32;
    let up: char = if 97 <= v && v <= 122 {
        ((v - 32) as u8) as char
    } else {
        c
    };
    let mut r = String::new();
    r.push(up);
    r.append(s.substring_char(1, n));
    proof {
        assert(r@ =~= capitalized(s@));
    }
    r
}

/// The handler type name for a unit: its namespace qualifier followed by the
/// capitalized base name.
pub fn handler_path(namespace: &Vec<String>, base: &str) -> (r: String)
    ensures
        r@ == handler_path_of(namespace@, base@),
{
    let mut r = String::new();
    let n = namespace.len();
    let mut i: usize = 0;
    proof {
        assert(r@ =~= namespace_prefix(namespace@.take(0)));
    }
    while i < n
        invariant
            n == namespace@.len(),
            0 <= i <= n,
            r@ == namespace_prefix(namespace@.take(i as int)),
        decreases n - i,
    {
        r.append(namespace[i].as_str());
        r.append("::");
        proof {
            assert(namespace@.take(i + 1).drop_last() =~= namespace@.take(i as int));
            assert(namespace@.take(i + 1).last() == namespace@[i as int]);
        }
        i = i + 1;
    }
    proof {
        assert(namespace@.take(n as int) =~= namespace@);
    }
    let cap = capitalize_first(base);
    r.append(cap.as_str());
    r
}

/// The command name for a base name: the base name prefixed with `!`.
pub fn command_name(base: &str) -> (r: String)
    ensures
        r@ == command_name_of(base@),
{
    let mut r = String::from_str("!");
    r.append(base);
    r
}

/// Whether a base name is the reserved namespace-root marker.
fn is_marker_name(base: &str) -> (r: bool)
    ensures
        r == is_marker(base@),
{
    let marker: String = "mod".to_owned();
    let b: String = base.to_owned();
    b == marker
}

/// Produce the registrations for the discovered units of a command
/// directory, in discovery order: one per unit, each deriving its command
/// name and its namespace-qualified handler type name from the unit's base
/// name, marker units excepted. `None` — no command directory at all — is
/// valid and yields no registrations.
pub fn generate_registrations(commands_dir: Option<&Vec<CommandUnit>>) -> (r: Vec<Registration>)
    ensures
        match commands_dir {
            Some(units) => r@.map_values(|g: Registration| g@) == registrations_of(units@),
            None => r@ == Seq::<Registration>::empty(),
        },
{
    let mut out: Vec<Registration> = Vec::new();
    let units = match commands_dir {
        Some(units) => units,
        None => {
            return out;
        },
    };
    let n = units.len();
    let mut i: usize = 0;
    proof {
        assert(out@.map_values(|g: Registration| g@) =~= registrations_of(units@.take(0)));
    }
    while i < n
        invariant
            n == units@.len(),
            0 <= i <= n,
            out@.map_values(|g: Registration| g@) == registrations_of(units@.take(i as int)),
        decreases n - i,
    {
        let unit = &units[i];
        let base = base_name(unit.file_name.as_str());
        proof {
            assert(units@.take(i + 1).drop_last() =~= units@.take(i as int));
            assert(units@.take(i + 1).last() == units@[i as int]);
        }
        if !is_marker_name(base.as_str()) {
            let cmd = command_name(base.as_str());
            let path = handler_path(&unit.namespace, base.as_str());
            out.push(Registration { command_name: cmd, handler_path: path });
            proof {
                assert(out@.map_values(|g: Registration| g@) =~= registrations_of(
                    units@.take(i + 1),
                ));
            }
        } else {
            proof {
                assert(out@.map_values(|g: Registration| g@) =~= registrations_of(
                    units@.take(i + 1),
                ));
            }
        }
        i = i + 1;
    }
    proof {
        assert(units@.take(n as int) =~= units@);
    }
    out
}

} // verus!
