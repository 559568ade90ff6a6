//! Declarative provisioning of virtualized compute resources.
//!
//! A template describes a set of resources (guest domains, networks,
//! interfaces, storage pools). A [`Parser`] turns the template into an
//! ordered sequence of [`Resource`] descriptions, and a [`Driver`] realizes
//! or tears down one description at a time against a management backend.
//! The orchestrator [`Verne`] sequences one full pass: parse, open the
//! connection, apply the operation to every resource in template order,
//! close the connection.

use vstd::prelude::*;

pub mod command;
pub mod libvirt;
pub mod record;
pub mod yaml;

verus! {

/// A declarative description of one provisionable entity.
///
/// A resource is produced once by a [`Parser`] and only read thereafter.
/// Drivers inspect it by exhaustive matching; a variant a driver does not
/// implement is skipped with a warning, never an error.
#[derive(Debug, PartialEq, Eq)]
pub enum Resource {
    Guest { name: String, memory: u64, vcpus: u32 },
    Network { name: String, bridge: String, ip_address: String, network: String },
    Interface { name: String, kind: String, mac: String },
    StoragePool { name: String, path: String },
}

/// The mathematical value of a [`Resource`]: the same four variants with
/// each string read as its sequence of characters.
pub enum ResourceSpec {
    Guest { name: Seq<char>, memory: u64, vcpus: u32 },
    Network { name: Seq<char>, bridge: Seq<char>, ip_address: Seq<char>, network: Seq<char> },
    Interface { name: Seq<char>, kind: Seq<char>, mac: Seq<char> },
    StoragePool { name: Seq<char>, path: Seq<char> },
}

impl View for Resource {
    type V = ResourceSpec;

    open spec fn view(&self) -> ResourceSpec {
        match self {
            Resource::Guest { name, memory, vcpus } => ResourceSpec::Guest {
                name: name@,
                memory: *memory,
                vcpus: *vcpus,
            },
            Resource::Network { name, bridge, ip_address, network } => ResourceSpec::Network {
                name: name@,
                bridge: bridge@,
                ip_address: ip_address@,
                network: network@,
            },
            Resource::Interface { name, kind, mac } => ResourceSpec::Interface {
                name: name@,
                kind: kind@,
                mac: mac@,
            },
            Resource::StoragePool { name, path } => ResourceSpec::StoragePool {
                name: name@,
                path: path@,
            },
        }
    }
}

impl Clone for Resource {
    /// A clone describes exactly the same entity.
    fn clone(&self) -> (r: Self)
        ensures
            r == *self,
    {
        match self {
            Resource::Guest { name, memory, vcpus } => Resource::Guest {
                name: name.clone(),
                memory: *memory,
                vcpus: *vcpus,
            },
            Resource::Network { name, bridge, ip_address, network } => Resource::Network {
                name: name.clone(),
                bridge: bridge.clone(),
                ip_address: ip_address.clone(),
                network: network.clone(),
            },
            Resource::Interface { name, kind, mac } => Resource::Interface {
                name: name.clone(),
                kind: kind.clone(),
                mac: mac.clone(),
            },
            Resource::StoragePool { name, path } => Resource::StoragePool {
                name: name.clone(),
                path: path.clone(),
            },
        }
    }
}

/// Why a template could not be turned into a resource sequence. Either
/// error is fatal: the orchestrator reports it before opening any
/// connection, and no resource is touched.
#[derive(Debug, Clone, Copy, PartialEq, Eq, Structural)]
pub enum ParseError {
    /// The template is not a well-formed document of the expected shape.
    Malformed,
    /// A required field is missing or mistyped on a resource kind the
    /// parser recognizes.
    MissingField,
}

/// One call the orchestrator makes on its driver, as recorded in the
/// driver's abstract event trace.
pub enum Event {
    Open,
    Close,
    Create(ResourceSpec),
    Clean(ResourceSpec),
}

/// The two per-resource operations an orchestrator pass can apply.
pub enum Op {
    Create,
    Clean,
}

/// The event that applying `op` to one resource adds to the trace.
pub open spec fn op_event(op: Op, r: ResourceSpec) -> Event {
    match op {
        Op::Create => Event::Create(r),
        Op::Clean => Event::Clean(r),
    }
}

/// The complete trace of one orchestrator pass over `rs`: the connection
/// is opened, every resource is applied in order, and the connection is
/// closed.
pub open spec fn run_trace(op: Op, rs: Seq<ResourceSpec>) -> Seq<Event> {
    seq![Event::Open] + rs.map_values(|r: ResourceSpec| op_event(op, r)) + seq![Event::Close]
}

/// The capability to realize or tear down one resource against a
/// management backend.
///
/// The abstract trace `events` records every call made on the driver, in
/// order. Each operation appends exactly one event and never fails the
/// batch: backend-level failures are the driver's to report (it logs and
/// returns), so the orchestrator always proceeds to the next resource.
/// Cleaning a resource that does not exist on the backend is likewise
/// reported by the driver and treated as success (idempotent teardown).
pub trait Driver: Sized {
    /// The calls made on this driver so far, in order. An implementation
    /// whose trace is never reasoned about may leave the default, the
    /// empty trace.
    open spec fn events(&self) -> Seq<Event> {
        Seq::<Event>::empty()
    }

    /// Establish the backend connection. Called exactly once per
    /// orchestrator pass, before any create or clean.
    fn open(&mut self)
        ensures
            final(self).events() == old(self).events().push(Event::Open),
    ;

    /// Release the backend connection. Called exactly once per
    /// orchestrator pass, after all creates or cleans.
    fn close(&mut self)
        ensures
            final(self).events() == old(self).events().push(Event::Close),
    ;

    /// Realize one resource against the backend.
    fn create(&mut self, resource: &Resource)
        ensures
            final(self).events() == old(self).events().push(Event::Create(resource@)),
    ;

    /// Tear down one resource, identified by name, on the backend.
    fn clean(&mut self, resource: &Resource)
        ensures
            final(self).events() == old(self).events().push(Event::Clean(resource@)),
    ;
}

/// The capability to turn an external template into an ordered sequence
/// of resource descriptions.
pub trait Parser: Sized {
    /// Whether this parser's template yields a resource sequence.
    spec fn parse_ok(&self) -> bool;

    /// The sequence the template yields when parsing succeeds.
    spec fn resources(&self) -> Seq<ResourceSpec>;

    /// The error reported when parsing fails.
    spec fn parse_err(&self) -> ParseError;

    /// Produce the declared resources in template order.
    ///
    /// The result is a function of the parser value alone, so parsing an
    /// unchanged template twice yields the same sequence. A failure is
    /// fatal to the whole pass: a parser rejects the template outright
    /// rather than yielding a partial sequence.
    fn parse(&self) -> (r: Result<Vec<Resource>, ParseError>)
        ensures
            (r is Ok) <==> self.parse_ok(),
            r matches Ok(v) ==> v@.map_values(|x: Resource| x@) == self.resources(),
            r matches Err(e) ==> e == self.parse_err(),
    ;
}

/// The orchestrator: owns one parser and one driver, and runs complete
/// passes of parse, open, per-resource operation, close.
pub struct Verne<D: Driver, P: Parser> {
    vector: Vec<Resource>,
    driver: D,
    parser: P,
}

impl<D: Driver, P: Parser> Verne<D, P> {
    /// The driver this orchestrator owns.
    pub closed spec fn spec_driver(&self) -> D {
        self.driver
    }

    /// The parser this orchestrator owns.
    pub closed spec fn spec_parser(&self) -> P {
        self.parser
    }

    /// The most recently parsed resource sequence.
    pub closed spec fn spec_resources(&self) -> Seq<ResourceSpec> {
        self.vector@.map_values(|x: Resource| x@)
    }

    /// Construct an orchestrator around one driver and one parser, with
    /// an empty resource sequence.
    pub fn new(driver: D, parser: P) -> (r: Verne<D, P>)
        ensures
            r.spec_driver() == driver,
            r.spec_parser() == parser,
            r.spec_resources() == Seq::<ResourceSpec>::empty(),
    {
        let r = Verne { vector: Vec::new(), driver, parser };
        proof {
            assert(r.spec_resources() =~= Seq::<ResourceSpec>::empty());
        }
        r
    }

    /// Re-parse the template, overwriting the stored sequence. The driver
    /// is not touched; on a parse failure the stored sequence is kept.
    fn parse(&mut self) -> (r: Result<(), ParseError>)
        ensures
            final(self).parser == old(self).parser,
            final(self).driver == old(self).driver,
            (r is Ok) <==> old(self).parser.parse_ok(),
            r is Ok ==> final(self).spec_resources() == old(self).parser.resources(),
            r matches Err(e) ==> e == old(self).parser.parse_err()
                && final(self).vector == old(self).vector,
    {
        match self.parser.parse() {
            Ok(v) => {
                self.vector = v;
                Ok(())
            },
            Err(e) => Err(e),
        }
    }

    /// Run one complete create pass: re-parse the template, open the
    /// connection, create every parsed resource in template order, close
    /// the connection.
    ///
    /// A parse failure is fatal and is reported before the connection is
    /// opened: the driver is left untouched. Once the pass starts, every
    /// resource is applied; a per-resource backend failure is the
    /// driver's to report and never short-circuits the batch.
    pub fn create(&mut self) -> (r: Result<(), ParseError>)
        ensures
            final(self).spec_parser() == old(self).spec_parser(),
            (r is Ok) <==> old(self).spec_parser().parse_ok(),
            r is Ok ==> final(self).spec_resources() == old(self).spec_parser().resources()
                && final(self).spec_driver().events() == old(self).spec_driver().events()
                    + run_trace(Op::Create, old(self).spec_parser().resources()),
            r matches Err(e) ==> e == old(self).spec_parser().parse_err()
                && final(self).spec_driver() == old(self).spec_driver()
                && final(self).spec_resources() == old(self).spec_resources(),
    {
        if let Err(e) = self.parse() {
            return Err(e);
        }
        self.driver.open();
        let ghost rs: Seq<ResourceSpec> = self.spec_resources();
        let n = self.vector.len();
        let mut i: usize = 0;
        while i < n
            invariant
                i <= n,
                n == self.vector.len(),
                self.parser == old(self).parser,
                self.spec_resources() == rs,
                self.driver.events() == old(self).driver.events() + seq![Event::Open]
                    + rs.take(i as int).map_values(|r: ResourceSpec| op_event(Op::Create, r)),
            decreases n - i,
        {
            self.driver.create(&self.vector[i]);
            proof {
                assert(rs.take(i + 1) =~= rs.take(i as int).push(rs[i as int]));
                assert(rs.take(i + 1).map_values(|r: ResourceSpec| op_event(Op::Create, r)) =~= rs
                    .take(i as int)
                    .map_values(|r: ResourceSpec| op_event(Op::Create, r))
                    .push(Event::Create(rs[i as int])));
                assert(self.driver.events() =~= old(self).driver.events() + seq![Event::Open]
                    + rs.take(i + 1).map_values(|r: ResourceSpec| op_event(Op::Create, r)));
            }
            i = i + 1;
        }
        self.driver.close();
        proof {
            assert(rs.take(n as int) =~= rs);
            assert(self.driver.events() =~= old(self).driver.events() + run_trace(Op::Create, rs));
        }
        Ok(())
    }

    /// Run one complete clean pass: re-parse the template, open the
    /// connection, clean every parsed resource in template order, close
    /// the connection.
    ///
    /// Teardown is idempotent and best-effort: a resource that was never
    /// created is the driver's to report as not found, and the pass still
    /// cleans every remaining resource and closes the connection.
    pub fn clean(&mut self) -> (r: Result<(), ParseError>)
        ensures
            final(self).spec_parser() == old(self).spec_parser(),
            (r is Ok) <==> old(self).spec_parser().parse_ok(),
            r is Ok ==> final(self).spec_resources() == old(self).spec_parser().resources()
                && final(self).spec_driver().events() == old(self).spec_driver().events()
                    + run_trace(Op::Clean, old(self).spec_parser().resources()),
            r matches Err(e) ==> e == old(self).spec_parser().parse_err()
                && final(self).spec_driver() == old(self).spec_driver()
                && final(self).spec_resources() == old(self).spec_resources(),
    {
        if let Err(e) = self.parse() {
            return Err(e);
        }
        self.driver.open();
        let ghost rs: Seq<ResourceSpec> = self.spec_resources();
        let n = self.vector.len();
        let mut i: usize = 0;
        while i < n
            invariant
                i <= n,
                n == self.vector.len(),
                self.parser == old(self).parser,
                self.spec_resources() == rs,
                self.driver.events() == old(self).driver.events() + seq![Event::Open]
                    + rs.take(i as int).map_values(|r: ResourceSpec| op_event(Op::Clean, r)),
            decreases n - i,
        {
            self.driver.clean(&self.vector[i]);
            proof {
                assert(rs.take(i + 1) =~= rs.take(i as int).push(rs[i as int]));
                assert(rs.take(i + 1).map_values(|r: ResourceSpec| op_event(Op::Clean, r)) =~= rs
                    .take(i as int)
                    .map_values(|r: ResourceSpec| op_event(Op::Clean, r))
                    .push(Event::Clean(rs[i as int])));
                assert(self.driver.events() =~= old(self).driver.events() + seq![Event::Open]
                    + rs.take(i + 1).map_values(|r: ResourceSpec| op_event(Op::Clean, r)));
            }
            i = i + 1;
        }
        self.driver.close();
        proof {
            assert(rs.take(n as int) =~= rs);
            assert(self.driver.events() =~= old(self).driver.events() + run_trace(Op::Clean, rs));
        }
        Ok(())
    }

    /// Borrow the driver, so a caller can inspect what a pass did.
    pub fn driver(&self) -> (r: &D)
        ensures
            r == self.spec_driver(),
    {
        &self.driver
    }
}

/// Whether `a` and `b` are the same text.
pub(crate) fn str_eq(a: &str, b: &str) -> (r: bool)
    ensures
        r == (a@ == b@),
{
    let sa: String = a.to_owned();
    let sb: String = b.to_owned();
    sa == sb
}

/// A command is a named operation bound to one orchestrator pass.
pub trait Command {
    /// Run the command's pass on the given orchestrator.
    fn execute<D: Driver, P: Parser>(verne: &mut Verne<D, P>) -> Result<(), ParseError>;
}

/// How many times `e` occurs in the trace `s`.
pub open spec fn count_events(s: Seq<Event>, e: Event) -> int
    decreases s.len(),
{
    if s.len() == 0 {
        0
    } else {
        count_events(s.drop_last(), e) + if s.last() == e {
            1int
        } else {
            0int
        }
    }
}

proof fn lemma_count_events_add(a: Seq<Event>, b: Seq<Event>, e: Event)
    ensures
        count_events(a + b, e) == count_events(a, e) + count_events(b, e),
    decreases b.len(),
{
    if b.len() == 0 {
        assert(a + b =~= a);
    } else {
        lemma_count_events_add(a, b.drop_last(), e);
        assert((a + b).drop_last() =~= a + b.drop_last());
        assert((a + b).last() == b.last());
    }
}

proof fn lemma_count_events_ops(op: Op, rs: Seq<ResourceSpec>, e: Event)
    requires
        e is Open || e is Close,
    ensures
        count_events(rs.map_values(|r: ResourceSpec| op_event(op, r)), e) == 0,
    decreases rs.len(),
{
    let mapped = rs.map_values(|r: ResourceSpec| op_event(op, r));
    if rs.len() > 0 {
        lemma_count_events_ops(op, rs.drop_last(), e);
        assert(mapped.drop_last() =~= rs.drop_last().map_values(
            |r: ResourceSpec| op_event(op, r),
        ));
        assert(mapped.last() != e);
    }
}

proof fn lemma_count_events_singleton(x: Event, e: Event)
    ensures
        count_events(seq![x], e) == if x == e {
            1int
        } else {
            0int
        },
{
    let s = seq![x];
    assert(s.drop_last() =~= Seq::<Event>::empty());
    assert(count_events(Seq::<Event>::empty(), e) == 0);
    assert(s.last() == x);
}

/// The connection is opened exactly once and closed exactly once per
/// orchestrator pass, however many resources the pass applies and however
/// many of the per-resource operations the driver had to report as
/// failed.
pub proof fn lemma_open_close_once(op: Op, rs: Seq<ResourceSpec>)
    ensures
        count_events(run_trace(op, rs), Event::Open) == 1,
        count_events(run_trace(op, rs), Event::Close) == 1,
{
    let mapped = rs.map_values(|r: ResourceSpec| op_event(op, r));
    lemma_count_events_add(seq![Event::Open] + mapped, seq![Event::Close], Event::Open);
    lemma_count_events_add(seq![Event::Open], mapped, Event::Open);
    lemma_count_events_add(seq![Event::Open] + mapped, seq![Event::Close], Event::Close);
    lemma_count_events_add(seq![Event::Open], mapped, Event::Close);
    lemma_count_events_ops(op, rs, Event::Open);
    lemma_count_events_ops(op, rs, Event::Close);
    lemma_count_events_singleton(Event::Open, Event::Open);
    lemma_count_events_singleton(Event::Close, Event::Close);
    lemma_count_events_singleton(Event::Open, Event::Close);
    lemma_count_events_singleton(Event::Close, Event::Open);
}

/// One pass applies its operation to every resource of the sequence, in
/// the original template order, each between the single open and the
/// single close: no resource is skipped and none is reordered, whatever
/// an earlier resource's operation did.
pub proof fn lemma_run_trace_order(op: Op, rs: Seq<ResourceSpec>)
    ensures
        run_trace(op, rs).len() == rs.len() + 2,
        run_trace(op, rs)[0] == Event::Open,
        run_trace(op, rs)[rs.len() as int + 1] == Event::Close,
        forall|i: int|
            0 <= i < rs.len() ==> run_trace(op, rs)[i + 1] == op_event(op, #[trigger] rs[i]),
{
    let mapped = rs.map_values(|r: ResourceSpec| op_event(op, r));
    assert forall|i: int|
        0 <= i < rs.len() implies run_trace(op, rs)[i + 1] == op_event(op, #[trigger] rs[i]) by {
        assert(run_trace(op, rs)[i + 1] == mapped[i]);
    }
}

} // verus!
