use vstd::prelude::*;
use vstd::string::StringExecFns;
use vstd::utf8::decode_utf8;
use vstd::utf8::decode_utf8_encode_utf8;
use vstd::utf8::encode_utf8;
use vstd::utf8::encode_utf8_decode_utf8;
use vstd::utf8::encode_utf8_valid_utf8;
use vstd::utf8::valid_utf8;

use crate::address::is_valid_address;
use crate::address::valid_address;
use crate::address::UNSET_ADDRESS;
use crate::errors::GpibControllerError;
use crate::text::decimal;
use crate::text::decimal_string;
use crate::text::parse_u8;
use crate::text::parsed_u8;
use crate::text::trim;
use crate::text::trimmed;
use crate::text::utf8_text;

verus! {

/// Capacity of the receive buffer: the longest response a single read accepts.
pub const BUFFER_SIZE: usize = 4096;

/// The TCP port the adapter listens on.
pub const DEFAULT_PORT: u16 = 1234;

/// The command that asks the adapter which GPIB address is selected.
pub open spec fn address_query() -> Seq<char> {
    "++addr\n"@
}

/// The command that turns on read-after-write.
pub open spec fn auto_command() -> Seq<char> {
    "++auto 1\n"@
}

/// The command that puts the adapter in controller mode.
pub open spec fn mode_command() -> Seq<char> {
    "++mode 1\n"@
}

/// The command that selects GPIB address `a`.
pub open spec fn select_command(a: u8) -> Seq<char> {
    "++addr "@ + decimal(a as nat) + "\n"@
}

/// What a read of the bytes `b` yields: an error when they do not fit in the
/// buffer or are not UTF-8, else the text they encode.
pub open spec fn response_outcome(b: Seq<u8>) -> Result<Seq<char>, GpibControllerError> {
    if b.len() > BUFFER_SIZE {
        Err(GpibControllerError::BufferOverflow)
    } else if !valid_utf8(b) {
        Err(GpibControllerError::MalformedResponse)
    } else {
        Ok(decode_utf8(b))
    }
}

/// The address that a reply `t` to the address query reports.
pub open spec fn address_text_outcome(t: Seq<char>) -> Result<u8, GpibControllerError> {
    match parsed_u8(t) {
        Some(a) => Ok(a),
        None => Err(GpibControllerError::IntegerParseError),
    }
}

/// The address that the raw reply `b` to the address query reports.
pub open spec fn address_reply_outcome(b: Seq<u8>) -> Result<u8, GpibControllerError> {
    match response_outcome(b) {
        Ok(t) => address_text_outcome(trimmed(t)),
        Err(e) => Err(e),
    }
}

/// One write to the adapter: the text to send and, when the text selects an
/// address, that address.
pub struct Transmission {
    command: String,
    selects: Option<u8>,
}

impl View for Transmission {
    type V = (Seq<char>, Option<u8>);

    closed spec fn view(&self) -> (Seq<char>, Option<u8>) {
        (self.command@, self.selects)
    }
}

/// Whether a write of `t` may change the selected address: only the address
/// command for an address the adapter accepts does.
pub open spec fn well_formed_write(t: (Seq<char>, Option<u8>)) -> bool {
    match t.1 {
        Some(a) => valid_address(a) && t.0 == select_command(a),
        None => true,
    }
}

impl Transmission {
    #[verifier::type_invariant]
    spec fn inv(self) -> bool {
        well_formed_write(self@)
    }

    /// The text to write.
    pub fn command(&self) -> (r: &str)
        ensures
            r@ == self@.0,
    {
        self.command.as_str()
    }

    /// The address this write selects, if it is an address command.
    pub fn selects(&self) -> (r: Option<u8>)
        ensures
            r == self@.1,
            well_formed_write(self@),
    {
        proof {
            use_type_invariant(self);
        }
        self.selects
    }
}

/// The writes that a list of transmissions stands for.
pub open spec fn plan_view(v: Seq<Transmission>) -> Seq<(Seq<char>, Option<u8>)> {
    v.map_values(|t: Transmission| t@)
}

/// The address selected after `t` was written successfully while `current` was selected.
pub open spec fn selected_after(current: u8, t: (Seq<char>, Option<u8>)) -> u8 {
    match t.1 {
        Some(a) => a,
        None => current,
    }
}

/// The address selected after every write of `plan` succeeded, starting from `current`.
pub open spec fn selected_after_all(current: u8, plan: Seq<(Seq<char>, Option<u8>)>) -> u8
    decreases plan.len(),
{
    if plan.len() == 0 {
        current
    } else {
        selected_after(selected_after_all(current, plan.drop_last()), plan.last())
    }
}

/// The writes that selecting `a` takes while `current` is selected: none when
/// it is selected already, else one address command.
pub open spec fn select_plan(current: u8, a: u8) -> Result<
    Seq<(Seq<char>, Option<u8>)>,
    GpibControllerError,
> {
    if !valid_address(a) {
        Err(GpibControllerError::InvalidAddress(a))
    } else if a == current {
        Ok(seq![])
    } else {
        Ok(seq![(select_command(a), Some(a))])
    }
}

/// The writes that sending `message` to device `a` takes: the selection, then
/// the message itself.
pub open spec fn send_plan(current: u8, message: Seq<char>, a: u8) -> Result<
    Seq<(Seq<char>, Option<u8>)>,
    GpibControllerError,
> {
    match select_plan(current, a) {
        Ok(p) => Ok(p.push((message, None))),
        Err(e) => Err(e),
    }
}

/// Whether `r` holds the writes of `plan`, or the same error.
pub open spec fn plan_result(
    r: Result<Vec<Transmission>, GpibControllerError>,
    plan: Result<Seq<(Seq<char>, Option<u8>)>, GpibControllerError>,
) -> bool {
    match plan {
        Ok(p) => r matches Ok(v) && plan_view(v@) == p,
        Err(e) => r == Err::<Vec<Transmission>, GpibControllerError>(e),
    }
}

/// The state of one session with a GPIB-to-LAN adapter: the address it has
/// selected on the bus. The connection itself is held by the caller, who
/// performs the writes that the session plans and reports their outcome.
pub struct GpibController {
    current_gpib_addr: u8,
}

impl GpibController {
    /// The GPIB address the adapter has selected, as far as this session knows.
    pub closed spec fn selected(&self) -> u8 {
        self.current_gpib_addr
    }

    /// A session whose adapter has not reported any address yet.
    pub fn unset() -> (r: GpibController)
        ensures
            r.selected() == UNSET_ADDRESS,
    {
        GpibController { current_gpib_addr: UNSET_ADDRESS }
    }

    /// A session whose adapter has `address` selected.
    pub fn with_address(address: u8) -> (r: GpibController)
        ensures
            r.selected() == address,
    {
        GpibController { current_gpib_addr: address }
    }

    /// The GPIB address the adapter has selected, as far as this session knows.
    pub fn current_address(&self) -> (r: u8)
        ensures
            r == self.selected(),
    {
        self.current_gpib_addr
    }

    /// The write of `message` as it stands, with no change of address.
    pub fn send_raw_data(message: &str) -> (r: Transmission)
        ensures
            r@ == (message@, None::<u8>),
    {
        Transmission { command: String::from_str(message), selects: None }
    }

    /// Frames one read from the adapter: `received` holds the bytes it returned.
    pub fn read_data(received: &[u8]) -> (r: Result<String, GpibControllerError>)
        ensures
            match response_outcome(received@) {
                Ok(t) => r matches Ok(s) && s@ == t,
                Err(e) => r == Err::<String, GpibControllerError>(e),
            },
    {
        if received.len() > BUFFER_SIZE {
            return Err(GpibControllerError::BufferOverflow);
        }
        match utf8_text(received) {
            Some(s) => Ok(s),
            None => Err(GpibControllerError::MalformedResponse),
        }
    }

    /// A session from the adapter's trimmed reply `text` to the address query.
    pub fn from_address_reply(text: &str) -> (r: Result<GpibController, GpibControllerError>)
        ensures
            match address_text_outcome(text@) {
                Ok(a) => r matches Ok(c) && c.selected() == a,
                Err(e) => r == Err::<GpibController, GpibControllerError>(e),
            },
    {
        match parse_u8(text) {
            Some(a) => Ok(GpibController::with_address(a)),
            None => Err(GpibControllerError::IntegerParseError),
        }
    }

    /// A session from the adapter's raw reply `received` to the address query.
    pub fn try_new_from(received: &[u8]) -> (r: Result<GpibController, GpibControllerError>)
        ensures
            match address_reply_outcome(received@) {
                Ok(a) => r matches Ok(c) && c.selected() == a,
                Err(e) => r == Err::<GpibController, GpibControllerError>(e),
            },
    {
        match GpibController::read_data(received) {
            Ok(s) => GpibController::from_address_reply(trim(s.as_str())),
            Err(e) => Err(e),
        }
    }

    /// The writes that selecting address `address` takes.
    pub fn set_address(&self, address: u8) -> (r: Result<Vec<Transmission>, GpibControllerError>)
        ensures
            plan_result(r, select_plan(self.selected(), address)),
    {
        if !is_valid_address(address) {
            return Err(GpibControllerError::InvalidAddress(address));
        }
        let mut plan: Vec<Transmission> = Vec::new();
        if address != self.current_gpib_addr {
            let command = String::from_str("++addr ").concat(decimal_string(address).as_str()).concat(
                "\n",
            );
            plan.push(Transmission { command, selects: Some(address) });
        }
        assert(plan_view(plan@) =~= select_plan(self.selected(), address)->Ok_0);
        Ok(plan)
    }

    /// The writes that sending `message` to the device at `gpib_addr` takes.
    pub fn gpib_send_to_addr(&self, message: &str, gpib_addr: u8) -> (r: Result<
        Vec<Transmission>,
        GpibControllerError,
    >)
        ensures
            plan_result(r, send_plan(self.selected(), message@, gpib_addr)),
    {
        match self.set_address(gpib_addr) {
            Ok(plan) => {
                let mut plan = plan;
                let ghost before = plan@;
                plan.push(GpibController::send_raw_data(message));
                assert(plan_view(plan@) =~= plan_view(before).push((message@, None)));
                Ok(plan)
            },
            Err(e) => Err(e),
        }
    }

    /// Records the outcome of writing `t`: the number of bytes written, or the
    /// description of the failure. The selected address changes only when `t`
    /// selects one and was written.
    pub fn record_write(&mut self, t: &Transmission, outcome: Result<usize, String>) -> (r: Result<
        usize,
        GpibControllerError,
    >)
        ensures
            final(self).selected() != old(self).selected() ==> outcome is Ok && t@.0
                == select_command(final(self).selected()),
            match outcome {
                Ok(n) => r == Ok::<usize, GpibControllerError>(n) && final(self).selected()
                    == selected_after(old(self).selected(), t@),
                Err(m) => r == Err::<usize, GpibControllerError>(
                    GpibControllerError::TransportError(m),
                ) && final(self).selected() == old(self).selected(),
            },
    {
        proof {
            use_type_invariant(t);
        }
        match outcome {
            Ok(n) => {
                if let Some(a) = t.selects {
                    self.current_gpib_addr = a;
                }
                Ok(n)
            },
            Err(m) => Err(GpibControllerError::TransportError(m)),
        }
    }
}

/// Selecting the same address twice in a row writes the address command at
/// most once: once the writes of the first selection have succeeded, the
/// second selection takes no write at all. The first takes exactly one write,
/// the address command, unless the address was selected already.
pub proof fn lemma_reselect_is_silent(c: GpibController, a: u8)
    requires
        valid_address(a),
    ensures
        select_plan(c.selected(), a) is Ok,
        c.selected() != a ==> select_plan(c.selected(), a)->Ok_0 == seq![
            (select_command(a), Some(a)),
        ],
        c.selected() == a ==> select_plan(c.selected(), a)->Ok_0 == Seq::<
            (Seq<char>, Option<u8>),
        >::empty(),
        selected_after_all(c.selected(), select_plan(c.selected(), a)->Ok_0) == a,
        select_plan(selected_after_all(c.selected(), select_plan(c.selected(), a)->Ok_0), a)
            == Ok::<Seq<(Seq<char>, Option<u8>)>, GpibControllerError>(Seq::empty()),
{
    let p = select_plan(c.selected(), a)->Ok_0;
    if c.selected() != a {
        assert(p.drop_last() =~= Seq::<(Seq<char>, Option<u8>)>::empty());
        assert(selected_after_all(c.selected(), p) == selected_after(c.selected(), p.last()));
    }
}

/// An address outside 0..=30 and 96..=126 is refused with `InvalidAddress`
/// before any write, whether it is selected or a message is sent to it.
pub proof fn lemma_invalid_address_refused(c: GpibController, message: Seq<char>, a: u8)
    requires
        !valid_address(a),
    ensures
        select_plan(c.selected(), a) == Err::<Seq<(Seq<char>, Option<u8>)>, GpibControllerError>(
            GpibControllerError::InvalidAddress(a),
        ),
        send_plan(c.selected(), message, a) == Err::<
            Seq<(Seq<char>, Option<u8>)>,
            GpibControllerError,
        >(GpibControllerError::InvalidAddress(a)),
{
}

/// A read gives back any text that fits in the buffer exactly as it was
/// encoded.
pub proof fn lemma_text_round_trip(t: Seq<char>)
    requires
        encode_utf8(t).len() <= BUFFER_SIZE,
    ensures
        response_outcome(encode_utf8(t)) == Ok::<Seq<char>, GpibControllerError>(t),
{
    encode_utf8_valid_utf8(t);
    encode_utf8_decode_utf8(t);
}

/// The text a read returns encodes to exactly the bytes that came in.
pub proof fn lemma_read_keeps_bytes(b: Seq<u8>)
    ensures
        response_outcome(b) matches Ok(s) ==> encode_utf8(s) == b,
{
    if b.len() <= BUFFER_SIZE && valid_utf8(b) {
        decode_utf8_encode_utf8(b);
    }
}

} // verus!
