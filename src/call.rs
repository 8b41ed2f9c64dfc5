use vstd::prelude::*;

use crate::error::HarnessError;
use crate::profile::Address;
use crate::registry::FunctionEntry;
use crate::text::{chars_of, extend_range, string_of};

verus! {

/// A log emitted by a contract: the emitting address, the topics and the data.
#[derive(Clone, Debug, PartialEq, Eq)]
pub struct LogEntry {
    pub address: Address,
    pub topics: Vec<Vec<u8>>,
    pub data: Vec<u8>,
}

/// What the executor reported for one call.
pub enum ExecutionResult {
    /// The call returned, and its result decoded against the return types.
    Returned { gas_used: u64, logs: Vec<LogEntry> },
    /// The call returned bytes that do not fit the return types.
    Undecodable { reason: String, gas_used: u64, logs: Vec<LogEntry> },
    /// The arguments did not fit the parameter types; nothing ran.
    Unencodable { reason: String },
    /// The contract reverted, with the decoded reason if it gave one.
    Reverted { reason: Option<String>, gas_used: u64, logs: Vec<LogEntry> },
    /// The machine failed.
    Fault { reason: String },
}

/// A call that completed: the gas it used and its logs in emission order.
pub struct CallOutcome {
    pub gas_used: u64,
    pub logs: Vec<LogEntry>,
}

/// The transaction that a call submits: from `caller` to `to`, no value transferred,
/// running the function at `function` of the bound interface.
pub struct CallRequest {
    pub caller: Address,
    pub to: Address,
    pub function: usize,
    pub selector: u32,
    pub value: u64,
}

/// Handle on one deployed contract.
pub struct Contract {
    /// Where the contract was deployed.
    pub address: Address,
    /// The account that calls it.
    pub sender: Address,
    /// Its interface, in declaration order.
    pub functions: Vec<FunctionEntry>,
}

/// `i` is the first function of `fs` named `name`.
pub open spec fn is_first_function(fs: Seq<FunctionEntry>, name: Seq<char>, i: int) -> bool {
    &&& 0 <= i < fs.len()
    &&& fs[i].name@ == name
    &&& forall|j: int| 0 <= j < i ==> fs[j].name@ != name
}

pub open spec fn has_function(fs: Seq<FunctionEntry>, name: Seq<char>) -> bool {
    exists|i: int| 0 <= i < fs.len() && fs[i].name@ == name
}

impl Contract {
    /// Prepares a call of the function `func`: of several functions with that name, the
    /// first declared.
    pub fn call(&self, func: &str) -> (r: Result<CallRequest, HarnessError>)
        ensures
            r is Ok <==> has_function(self.functions@, func@),
            match r {
                Ok(req) => {
                    &&& is_first_function(self.functions@, func@, req.function as int)
                    &&& req.selector == self.functions@[req.function as int].selector
                    &&& req.caller == self.sender
                    &&& req.to == self.address
                    &&& req.value == 0
                },
                Err(HarnessError::FunctionNotFound { name }) => name@ == func@,
                Err(_) => false,
            },
    {
        let key = func.to_owned();
        let mut i: usize = 0;
        while i < self.functions.len()
            invariant
                0 <= i <= self.functions@.len(),
                key@ == func@,
                forall|j: int| 0 <= j < i ==> self.functions@[j].name@ != func@,
            decreases self.functions@.len() - i,
        {
            if self.functions[i].name == key {
                return Ok(
                    CallRequest {
                        caller: self.sender,
                        to: self.address,
                        function: i,
                        selector: self.functions[i].selector,
                        value: 0,
                    },
                );
            }
            i = i + 1;
        }
        Err(HarnessError::FunctionNotFound { name: key })
    }
}

/// How a call's executor result reaches the caller: a returned call is an outcome, a
/// revert is a recoverable error with its reason, gas and logs, the rest are errors.
pub fn classify(result: ExecutionResult) -> (r: Result<CallOutcome, HarnessError>)
    ensures
        match result {
            ExecutionResult::Returned { gas_used, logs } => r matches Ok(o) && o.gas_used
                == gas_used && o.logs@ == logs@,
            ExecutionResult::Undecodable { reason, .. } => r matches Err(
                HarnessError::ResultDecoding { reason: rr },
            ) && rr@ == reason@,
            ExecutionResult::Unencodable { reason } => r matches Err(
                HarnessError::ArgumentEncoding { reason: rr },
            ) && rr@ == reason@,
            ExecutionResult::Reverted { reason, gas_used, logs } => r matches Err(
                HarnessError::ExecutionRevert { reason: rr, gas_used: g, logs: l },
            ) && rr == reason && g == gas_used && l@ == logs@,
            ExecutionResult::Fault { reason } => r matches Err(HarnessError::Execution { reason: rr })
                && rr@ == reason@,
        },
{
    match result {
        ExecutionResult::Returned { gas_used, logs } => Ok(CallOutcome { gas_used, logs }),
        ExecutionResult::Undecodable { reason, .. } => Err(HarnessError::ResultDecoding { reason }),
        ExecutionResult::Unencodable { reason } => Err(HarnessError::ArgumentEncoding { reason }),
        ExecutionResult::Reverted { reason, gas_used, logs } => Err(
            HarnessError::ExecutionRevert { reason, gas_used, logs },
        ),
        ExecutionResult::Fault { reason } => Err(HarnessError::Execution { reason }),
    }
}

/// The gas and logs that a call's diagnostics render: present where the call ran on
/// the machine and reached its end or a revert, absent otherwise.
pub fn reported(result: &ExecutionResult) -> (r: Option<(u64, &Vec<LogEntry>)>)
    ensures
        match *result {
            ExecutionResult::Returned { gas_used, logs } => r matches Some(p) && p.0 == gas_used
                && *p.1 == logs,
            ExecutionResult::Undecodable { gas_used, logs, .. } => r matches Some(p) && p.0
                == gas_used && *p.1 == logs,
            ExecutionResult::Reverted { gas_used, logs, .. } => r matches Some(p) && p.0
                == gas_used && *p.1 == logs,
            _ => r is None,
        },
{
    match result {
        ExecutionResult::Returned { gas_used, logs } => Some((*gas_used, logs)),
        ExecutionResult::Undecodable { gas_used, logs, .. } => Some((*gas_used, logs)),
        ExecutionResult::Reverted { gas_used, logs, .. } => Some((*gas_used, logs)),
        _ => None,
    }
}

/// The decimal digit `d`.
pub open spec fn digit_char(d: nat) -> char {
    ((d + 48) as u8) as char
}

/// `n` written in decimal, without leading zeros.
pub open spec fn decimal(n: nat) -> Seq<char>
    decreases n,
{
    if n < 10 {
        seq![digit_char(n)]
    } else {
        decimal(n / 10).push(digit_char(n % 10))
    }
}

/// Appends `n` in decimal to `out`.
fn push_decimal(out: &mut Vec<char>, n: u64)
    ensures
        final(out)@ == old(out)@ + decimal(n as nat),
    decreases n,
{
    if n >= 10 {
        push_decimal(out, n / 10);
    }
    let d: u8 = (n % 10) as u8;
    out.push((d + 48) as char);
    assert(final(out)@ =~= old(out)@ + decimal(n as nat));
}

/// The line that reports the gas a call of `func` used.
pub open spec fn gas_line(func: Seq<char>, gas_used: nat) -> Seq<char> {
    "Gas used "@ + func + ": "@ + decimal(gas_used)
}

/// The line that opens the logs of a call of `func`.
pub open spec fn start_line(func: Seq<char>) -> Seq<char> {
    "=========== Start Logs "@ + func + " ==========="@
}

/// The line that closes the logs of a call of `func`.
pub open spec fn end_line(func: Seq<char>) -> Seq<char> {
    "=========== End Logs "@ + func + " ==========="@
}

/// The diagnostics of a call of `func`: its gas, then its decoded logs between the
/// start and end markers.
pub open spec fn diagnostics(func: Seq<char>, gas_used: nat, logs: Seq<Seq<char>>) -> Seq<
    Seq<char>,
> {
    seq![gas_line(func, gas_used), start_line(func)] + logs + seq![end_line(func)]
}

/// The diagnostics of a call report its gas first, then every decoded log in emission
/// order, each between the start and the end marker, and nothing else.
pub proof fn lemma_logs_between_markers(func: Seq<char>, gas_used: nat, logs: Seq<Seq<char>>)
    ensures
        diagnostics(func, gas_used, logs).len() == logs.len() + 3,
        diagnostics(func, gas_used, logs)[0] == gas_line(func, gas_used),
        diagnostics(func, gas_used, logs)[1] == start_line(func),
        diagnostics(func, gas_used, logs).subrange(2, logs.len() + 2 as int) == logs,
        diagnostics(func, gas_used, logs).last() == end_line(func),
{
    let d = diagnostics(func, gas_used, logs);
    assert(d.subrange(2, logs.len() + 2 as int) =~= logs);
}

/// `prefix`, `func` and `suffix` as one string.
fn framed(prefix: &str, func: &[char], suffix: &str) -> (r: String)
    ensures
        r@ == prefix@ + func@ + suffix@,
{
    let mut out = chars_of(prefix);
    extend_range(&mut out, func, 0, func.len());
    let tail = chars_of(suffix);
    extend_range(&mut out, tail.as_slice(), 0, tail.len());
    assert(func@.subrange(0, func@.len() as int) =~= func@);
    assert(tail@.subrange(0, tail@.len() as int) =~= tail@);
    string_of(out.as_slice())
}

/// The lines that a call of `func` renders to the diagnostic stream, given the gas it
/// used and its logs as decoded for reading, in emission order.
pub fn diagnostic_lines(func: &str, gas_used: u64, decoded_logs: Vec<String>) -> (r: Vec<String>)
    ensures
        r@.map_values(|s: String| s@) == diagnostics(
            func@,
            gas_used as nat,
            decoded_logs@.map_values(|s: String| s@),
        ),
{
    let f = chars_of(func);
    let mut gas = chars_of("Gas used ");
    extend_range(&mut gas, f.as_slice(), 0, f.len());
    let sep = chars_of(": ");
    extend_range(&mut gas, sep.as_slice(), 0, sep.len());
    push_decimal(&mut gas, gas_used);
    assert(f@.subrange(0, f@.len() as int) =~= f@);
    assert(sep@.subrange(0, sep@.len() as int) =~= sep@);
    let mut out: Vec<String> = Vec::new();
    out.push(string_of(gas.as_slice()));
    out.push(framed("=========== Start Logs ", f.as_slice(), " ==========="));
    let ghost head = out@.map_values(|s: String| s@);
    let ghost orig = decoded_logs@;
    let ghost logs = decoded_logs@.map_values(|s: String| s@);
    assert(head =~= seq![gas_line(func@, gas_used as nat), start_line(func@)]);
    for line in it: decoded_logs.into_iter()
        invariant
            it.seq() == orig,
            logs == orig.map_values(|s: String| s@),
            out@.map_values(|s: String| s@) == head + logs.subrange(0, it.index() as int),
    {
        let ghost k = it.index();
        assert(line == orig[k]);
        let ghost before = out@;
        out.push(line);
        assert(out@.map_values(|s: String| s@) =~= before.map_values(|s: String| s@).push(
            orig[k]@,
        ));
        assert(logs.subrange(0, k + 1) =~= logs.subrange(0, k as int).push(logs[k]));
        assert(out@.map_values(|s: String| s@) =~= head + logs.subrange(0, k + 1));
    }
    assert(logs.subrange(0, logs.len() as int) =~= logs);
    out.push(framed("=========== End Logs ", f.as_slice(), " ==========="));
    assert(out@.map_values(|s: String| s@) =~= diagnostics(func@, gas_used as nat, logs));
    out
}

} // verus!
