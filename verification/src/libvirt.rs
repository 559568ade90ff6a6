//! The decisions a hypervisor driver makes per guest: which description
//! dialect the backend kind calls for, the domain description document
//! itself, and what the transience flag means for create and clean.
//!
//! The live backend session (opening the connection, submitting the
//! document, looking domains up by name) is the unverified glue around
//! this crate; everything the driver decides or computes is here.

use vstd::prelude::*;

use crate::str_eq;

verus! {

/// The two structurally different domain description dialects: full
/// virtualization boots a machine image, a container-style backend runs
/// an init process with a console.
#[derive(Debug, Clone, Copy, PartialEq, Eq, Structural)]
pub enum Dialect {
    FullVirt,
    Container,
}

/// The dialect each backend kind calls for: `qemu` and `test` take the
/// full-virtualization description, `lxc` the container-style one. Any
/// other kind is unsupported.
pub open spec fn spec_dialect(kind: Seq<char>) -> Option<Dialect> {
    if kind == "qemu"@ || kind == "test"@ {
        Some(Dialect::FullVirt)
    } else if kind == "lxc"@ {
        Some(Dialect::Container)
    } else {
        None
    }
}

/// Pick the description dialect for a backend kind. `None` means the
/// kind is unsupported, which is fatal to the driver: no description can
/// safely be submitted to a backend of unknown structure.
pub fn dialect_for(kind: &str) -> (r: Option<Dialect>)
    ensures
        r == spec_dialect(kind@),
{
    if str_eq(kind, "qemu") || str_eq(kind, "test") {
        Some(Dialect::FullVirt)
    } else if str_eq(kind, "lxc") {
        Some(Dialect::Container)
    } else {
        None
    }
}

/// The decimal digit `d`, for `0 <= d <= 9`.
pub open spec fn spec_digit(d: int) -> char {
    if d == 0 {
        '0'
    } else if d == 1 {
        '1'
    } else if d == 2 {
        '2'
    } else if d == 3 {
        '3'
    } else if d == 4 {
        '4'
    } else if d == 5 {
        '5'
    } else if d == 6 {
        '6'
    } else if d == 7 {
        '7'
    } else if d == 8 {
        '8'
    } else {
        '9'
    }
}

/// The decimal digits of `n`, most significant first, with no leading
/// zeros (a single `'0'` for zero).
pub open spec fn spec_decimal(n: int) -> Seq<char>
    recommends
        0 <= n,
    decreases n,
{
    if n < 10 {
        seq![spec_digit(n)]
    } else {
        spec_decimal(n / 10).push(spec_digit(n % 10))
    }
}

/// The one-character text of the decimal digit `d`.
fn digit_str(d: u64) -> (r: &'static str)
    requires
        d < 10,
    ensures
        r@ == seq![spec_digit(d as int)],
{
    if d == 0 {
        proof {
            reveal_strlit("0");
            assert("0"@ =~= seq!['0']);
        }
        "0"
    } else if d == 1 {
        proof {
            reveal_strlit("1");
            assert("1"@ =~= seq!['1']);
        }
        "1"
    } else if d == 2 {
        proof {
            reveal_strlit("2");
            assert("2"@ =~= seq!['2']);
        }
        "2"
    } else if d == 3 {
        proof {
            reveal_strlit("3");
            assert("3"@ =~= seq!['3']);
        }
        "3"
    } else if d == 4 {
        proof {
            reveal_strlit("4");
            assert("4"@ =~= seq!['4']);
        }
        "4"
    } else if d == 5 {
        proof {
            reveal_strlit("5");
            assert("5"@ =~= seq!['5']);
        }
        "5"
    } else if d == 6 {
        proof {
            reveal_strlit("6");
            assert("6"@ =~= seq!['6']);
        }
        "6"
    } else if d == 7 {
        proof {
            reveal_strlit("7");
            assert("7"@ =~= seq!['7']);
        }
        "7"
    } else if d == 8 {
        proof {
            reveal_strlit("8");
            assert("8"@ =~= seq!['8']);
        }
        "8"
    } else {
        proof {
            reveal_strlit("9");
            assert("9"@ =~= seq!['9']);
        }
        "9"
    }
}

/// Append the decimal digits of `n` to `s`.
fn push_decimal(s: &mut String, n: u64)
    ensures
        final(s)@ == old(s)@ + spec_decimal(n as int),
    decreases n,
{
    if n < 10 {
        s.append(digit_str(n));
    } else {
        push_decimal(s, n / 10);
        s.append(digit_str(n % 10));
        proof {
            assert(old(s)@ + spec_decimal(n as int / 10) + seq![spec_digit(n as int % 10)] =~= old(
                s,
            )@ + spec_decimal(n as int / 10).push(spec_digit(n as int % 10)));
        }
    }
}

/// The domain description document for one guest: the backend kind, the
/// guest's name, its memory in KiB and its virtual cpu count, closed by
/// the dialect's boot method and device set.
pub open spec fn spec_guest_xml(
    kind: Seq<char>,
    dialect: Dialect,
    name: Seq<char>,
    memory: u64,
    vcpus: u32,
) -> Seq<char> {
    let head = "<domain type='"@ + kind + "'><name>"@ + name + "</name><memory unit='KiB'>"@
        + spec_decimal(memory as int) + "</memory><vcpus>"@ + spec_decimal(vcpus as int)
        + "</vcpus>"@;
    match dialect {
        Dialect::FullVirt => head
            + "<features><acpi/><apic/></features><os><type>hvm</type></os></domain>"@,
        Dialect::Container => head
            + "<os><type>exe</type><init>/bin/sh</init></os><devices><console type='pty'/></devices></domain>"@,
    }
}

/// Build the domain description document for one guest.
pub fn guest_xml(kind: &str, dialect: Dialect, name: &str, memory: u64, vcpus: u32) -> (r: String)
    ensures
        r@ == spec_guest_xml(kind@, dialect, name@, memory, vcpus),
{
    let mut s = String::new();
    s.append("<domain type='");
    proof {
        assert(s@ =~= "<domain type='"@);
    }
    s.append(kind);
    s.append("'><name>");
    s.append(name);
    s.append("</name><memory unit='KiB'>");
    push_decimal(&mut s, memory);
    s.append("</memory><vcpus>");
    push_decimal(&mut s, vcpus as u64);
    s.append("</vcpus>");
    match dialect {
        Dialect::FullVirt => s.append(
            "<features><acpi/><apic/></features><os><type>hvm</type></os></domain>",
        ),
        Dialect::Container => s.append(
            "<os><type>exe</type><init>/bin/sh</init></os><devices><console type='pty'/></devices></domain>",
        ),
    }
    s
}

/// How `create` realizes one guest against the backend.
#[derive(Debug, Clone, Copy, PartialEq, Eq, Structural)]
pub enum CreateMode {
    /// Persist the definition, then start the guest from it.
    DefineThenStart,
    /// Define and start the guest in one step, persisting nothing.
    TransientStart,
}

/// The create mode the transience flag calls for.
pub open spec fn spec_create_mode(transient: bool) -> CreateMode {
    if transient {
        CreateMode::TransientStart
    } else {
        CreateMode::DefineThenStart
    }
}

/// Decide how `create` realizes a guest: transient drivers start the
/// guest without persisting a definition, persistent drivers define it
/// first and then start it.
pub fn create_mode(transient: bool) -> (r: CreateMode)
    ensures
        r == spec_create_mode(transient),
{
    if transient {
        CreateMode::TransientStart
    } else {
        CreateMode::DefineThenStart
    }
}

/// What `clean` does to one guest: whether to stop the running instance,
/// and whether to remove the persisted definition.
#[derive(Debug, Clone, Copy, PartialEq, Eq, Structural)]
pub struct CleanPlan {
    pub destroy: bool,
    pub undefine: bool,
}

/// The clean steps the transience flag calls for.
pub open spec fn spec_clean_plan(transient: bool) -> CleanPlan {
    CleanPlan { destroy: true, undefine: !transient }
}

/// Decide how `clean` tears a guest down: the running instance is always
/// destroyed, and the persisted definition is removed exactly when the
/// driver is not transient, since a transient create left none behind.
pub fn clean_plan(transient: bool) -> (r: CleanPlan)
    ensures
        r == spec_clean_plan(transient),
{
    CleanPlan { destroy: true, undefine: !transient }
}

/// A transient-mode driver never touches a persisted definition: its
/// create persists nothing and its clean never attempts to remove a
/// definition. A persistent-mode clean always attempts both: stop the
/// running instance and remove the definition.
pub proof fn lemma_transience(transient: bool)
    ensures
        transient ==> spec_create_mode(transient) is TransientStart && !spec_clean_plan(
            transient,
        ).undefine,
        !transient ==> spec_create_mode(transient) is DefineThenStart && spec_clean_plan(
            transient,
        ).undefine,
        spec_clean_plan(transient).destroy,
{
}

} // verus!
