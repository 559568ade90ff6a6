//! The dispatch surface: two named commands bound one to one to the
//! orchestrator's passes, and the selection of a parser and a driver by
//! name at startup.

use vstd::prelude::*;

use crate::Command;
use crate::Driver;
use crate::Op;
use crate::ParseError;
use crate::Parser;
use crate::Verne;
use crate::run_trace;
use crate::str_eq;

verus! {

/// The command that creates every resource of the template.
pub struct Create;

/// The command that tears down every resource of the template.
pub struct Clean;

impl Command for Create {
    fn execute<D: Driver, P: Parser>(verne: &mut Verne<D, P>) -> (r: Result<(), ParseError>)
        ensures
            final(verne).spec_parser() == old(verne).spec_parser(),
            (r is Ok) <==> old(verne).spec_parser().parse_ok(),
            r is Ok ==> final(verne).spec_driver().events() == old(verne).spec_driver().events()
                + run_trace(Op::Create, old(verne).spec_parser().resources()),
            r is Err ==> final(verne).spec_driver() == old(verne).spec_driver(),
    {
        verne.create()
    }
}

impl Command for Clean {
    fn execute<D: Driver, P: Parser>(verne: &mut Verne<D, P>) -> (r: Result<(), ParseError>)
        ensures
            final(verne).spec_parser() == old(verne).spec_parser(),
            (r is Ok) <==> old(verne).spec_parser().parse_ok(),
            r is Ok ==> final(verne).spec_driver().events() == old(verne).spec_driver().events()
                + run_trace(Op::Clean, old(verne).spec_parser().resources()),
            r is Err ==> final(verne).spec_driver() == old(verne).spec_driver(),
    {
        verne.clean()
    }
}

/// The template parsers that can be selected by name at startup.
#[derive(Debug, Clone, Copy, PartialEq, Eq, Structural)]
pub enum ParserChoice {
    Yaml,
}

/// The drivers that can be selected by name at startup.
#[derive(Debug, Clone, Copy, PartialEq, Eq, Structural)]
pub enum DriverChoice {
    Libvirt,
}

/// Select a parser by name. `None` is a fatal startup error: no template
/// is read and no resource is touched afterwards.
pub fn parser_choice(name: &str) -> (r: Option<ParserChoice>)
    ensures
        (r is Some) <==> name@ == "yaml"@,
        r matches Some(c) ==> c == ParserChoice::Yaml,
{
    if str_eq(name, "yaml") {
        Some(ParserChoice::Yaml)
    } else {
        None
    }
}

/// Select a driver by name. `None` is a fatal startup error: no template
/// is read and no resource is touched afterwards.
pub fn driver_choice(name: &str) -> (r: Option<DriverChoice>)
    ensures
        (r is Some) <==> name@ == "libvirt"@,
        r matches Some(c) ==> c == DriverChoice::Libvirt,
{
    if str_eq(name, "libvirt") {
        Some(DriverChoice::Libvirt)
    } else {
        None
    }
}

} // verus!
