use vstd::prelude::*;
use vstd::string::StringExecFns;

verus! {

/// The character of a decimal digit.
pub open spec fn digit_char(d: nat) -> char
    recommends
        d < 10,
{
    ('0' as nat + d) as char
}

/// The decimal numeral of `n`, without leading zeros.
pub open spec fn decimal(n: nat) -> Seq<char>
    decreases n,
{
    if n < 10 {
        seq![digit_char(n)]
    } else {
        decimal(n / 10).push(digit_char(n % 10))
    }
}

/// Relies on `u16`'s `to_string`: the decimal numeral, without leading zeros.
#[verifier::external_body]
pub(crate) fn decimal_text(n: u16) -> (r: String)
    ensures
        r@ == decimal(n as nat),
{
    n.to_string()
}

/// The text `host:port` of an endpoint.
pub open spec fn endpoint_spec(host: Seq<char>, port: u16) -> Seq<char> {
    host + ":"@ + decimal(port as nat)
}

/// Writes an endpoint as `host:port`.
pub fn endpoint_text(host: &str, port: u16) -> (r: String)
    ensures
        r@ == endpoint_spec(host@, port),
{
    let numeral = decimal_text(port);
    let with_colon = String::from_str(host).concat(":");
    with_colon.concat(numeral.as_str())
}

/// The endpoint that telemetry goes to.
pub struct Destination {
    pub host: String,
    pub port: u16,
}

impl View for Destination {
    type V = (Seq<char>, u16);

    open spec fn view(&self) -> (Seq<char>, u16) {
        (self.host@, self.port)
    }
}

impl Clone for Destination {
    fn clone(&self) -> (r: Destination)
        ensures
            r@ == self@,
    {
        Destination { host: self.host.clone(), port: self.port }
    }
}

impl Destination {
    pub fn new(host: &str, port: u16) -> (r: Destination)
        ensures
            r@ == (host@, port),
    {
        Destination { host: String::from_str(host), port }
    }

    /// This endpoint written as `host:port`.
    pub fn to_text(&self) -> (r: String)
        ensures
            r@ == endpoint_spec(self.host@, self.port),
    {
        endpoint_text(self.host.as_str(), self.port)
    }
}

/// The one current destination of a node. It is only ever read or replaced as
/// a whole; a program that shares it between tasks puts it behind a lock.
pub struct DestinationCell {
    current: Destination,
}

impl View for DestinationCell {
    type V = (Seq<char>, u16);

    closed spec fn view(&self) -> (Seq<char>, u16) {
        self.current@
    }
}

/// A cell's value after writing `new` over `current`: the last writer wins.
pub open spec fn replaced(current: (Seq<char>, u16), new: (Seq<char>, u16)) -> (Seq<char>, u16) {
    new
}

/// A cell's value after the writes `writes`, in order, starting from `start`.
pub open spec fn after_writes(start: (Seq<char>, u16), writes: Seq<(Seq<char>, u16)>) -> (
    Seq<char>,
    u16,
)
    decreases writes.len(),
{
    if writes.len() == 0 {
        start
    } else {
        replaced(after_writes(start, writes.drop_last()), writes.last())
    }
}

impl DestinationCell {
    pub fn new(initial: Destination) -> (r: DestinationCell)
        ensures
            r@ == initial@,
    {
        DestinationCell { current: initial }
    }

    /// A copy of the current destination.
    pub fn read(&self) -> (r: Destination)
        ensures
            r@ == self@,
    {
        self.current.clone()
    }

    /// Replaces the whole destination.
    pub fn replace(&mut self, new: Destination)
        ensures
            final(self)@ == replaced(old(self)@, new@),
    {
        self.current = new;
    }
}

/// Whatever writes a cell receives, it holds either its first value or one
/// written value whole: its host and its port always come from the same write.
/// Once written, it holds the last value written.
pub proof fn lemma_cell_never_mixes_writes(
    start: (Seq<char>, u16),
    writes: Seq<(Seq<char>, u16)>,
)
    ensures
        after_writes(start, writes) == start || exists|i: int|
            0 <= i < writes.len() && after_writes(start, writes) == #[trigger] writes[i],
        writes.len() > 0 ==> after_writes(start, writes) == writes.last(),
{
    if writes.len() > 0 {
        assert(after_writes(start, writes) == writes[writes.len() - 1]);
    }
}

} // verus!
