use vstd::prelude::*;

verus! {

/// One operation that a scan call performs against the radio driver.
#[derive(Clone, Copy, Debug, PartialEq, Eq, Structural)]
pub enum RadioOp {
    /// Ask the driver whether the radio is started.
    CheckStarted,
    /// Start the radio.
    Start,
    /// Enumerate the visible networks.
    Scan,
}

/// What a scan call does after the driver answered the started check.
pub open spec fn plan_ops(started: bool) -> Seq<RadioOp> {
    if started {
        seq![RadioOp::Scan]
    } else {
        seq![RadioOp::Start, RadioOp::Scan]
    }
}

/// Every driver operation of one scan call, in order.
pub open spec fn call_ops(started: bool) -> Seq<RadioOp> {
    seq![RadioOp::CheckStarted] + plan_ops(started)
}

/// The driver's log when calls run one after another while holding the
/// handle exclusively; `calls[i]` is what the started check answered to the
/// i-th call.
pub open spec fn serial_log(calls: Seq<bool>) -> Seq<RadioOp>
    decreases calls.len(),
{
    if calls.len() == 0 {
        Seq::empty()
    } else {
        serial_log(calls.drop_last()) + call_ops(calls.last())
    }
}

/// Where the operations of call `k` begin in the serial log.
pub open spec fn call_offset(calls: Seq<bool>, k: int) -> int {
    serial_log(calls.take(k)).len() as int
}

/// The page fragment listing the given network names, each followed by a
/// line break.
pub open spec fn rendered(names: Seq<Seq<char>>) -> Seq<char>
    decreases names.len(),
{
    if names.len() == 0 {
        Seq::empty()
    } else {
        rendered(names.drop_last()) + names.last() + "<br>"@
    }
}

/// The driver operations that a scan call performs once the started check
/// has answered: the radio is started only when it is not, then scanned.
pub fn scan_plan(started: bool) -> (r: Vec<RadioOp>)
    ensures
        r@ == plan_ops(started),
{
    let mut ops: Vec<RadioOp> = Vec::new();
    if !started {
        ops.push(RadioOp::Start);
    }
    ops.push(RadioOp::Scan);
    proof {
        if started {
            assert(ops@ =~= seq![RadioOp::Scan]);
        } else {
            assert(ops@ =~= seq![RadioOp::Start, RadioOp::Scan]);
        }
    }
    ops
}

/// Renders the names found by one scan, in the order the driver gave them,
/// each followed by `<br>`. The text depends on this list alone.
pub fn render_ssids(names: &Vec<String>) -> (r: String)
    ensures
        r@ == rendered(names@.map_values(|s: String| s@)),
{
    let ghost views = names@.map_values(|s: String| s@);
    let mut out = String::new();
    let mut i: usize = 0;
    proof {
        assert(views.take(0) =~= Seq::<Seq<char>>::empty());
    }
    while i < names.len()
        invariant
            i <= names.len(),
            views == names@.map_values(|s: String| s@),
            out@ == rendered(views.take(i as int)),
        decreases names.len() - i,
    {
        out.append(names[i].as_str());
        out.append("<br>");
        proof {
            assert(views.take(i as int + 1).drop_last() =~= views.take(i as int));
        }
        i = i + 1;
    }
    proof {
        assert(views.take(names.len() as int) =~= views);
    }
    out
}

/// Each prefix of the calls leaves its own serial log as a prefix of the
/// whole log.
proof fn lemma_serial_log_prefix(calls: Seq<bool>, j: int)
    requires
        0 <= j <= calls.len(),
    ensures
        serial_log(calls.take(j)).len() <= serial_log(calls).len(),
        serial_log(calls).take(serial_log(calls.take(j)).len() as int) == serial_log(
            calls.take(j),
        ),
    decreases calls.len() - j,
{
    if j == calls.len() {
        assert(calls.take(j) =~= calls);
        assert(serial_log(calls).take(serial_log(calls).len() as int) =~= serial_log(calls));
    } else {
        lemma_serial_log_prefix(calls, j + 1);
        let a = serial_log(calls.take(j));
        let b = serial_log(calls.take(j + 1));
        assert(calls.take(j + 1).drop_last() =~= calls.take(j));
        assert(b == a + call_ops(calls[j]));
        assert(serial_log(calls).take(a.len() as int) =~= b.take(a.len() as int));
        assert(b.take(a.len() as int) =~= a);
    }
}

/// Calls that hold the handle exclusively never interleave: in the driver's
/// log the operations of call `k` stand together, in their own order, right
/// after those of every earlier call.
pub proof fn lemma_scans_serialized(calls: Seq<bool>, k: int)
    requires
        0 <= k < calls.len(),
    ensures
        call_offset(calls, k + 1) == call_offset(calls, k) + call_ops(calls[k]).len(),
        call_offset(calls, k + 1) <= serial_log(calls).len(),
        serial_log(calls).subrange(call_offset(calls, k), call_offset(calls, k + 1)) == call_ops(
            calls[k],
        ),
{
    lemma_serial_log_prefix(calls, k + 1);
    let a = serial_log(calls.take(k));
    let b = serial_log(calls.take(k + 1));
    assert(calls.take(k + 1).drop_last() =~= calls.take(k));
    assert(b == a + call_ops(calls[k]));
    assert(serial_log(calls).subrange(a.len() as int, b.len() as int) =~= b.subrange(
        a.len() as int,
        b.len() as int,
    ));
    assert(b.subrange(a.len() as int, b.len() as int) =~= call_ops(calls[k]));
}

/// A scan call on a radio that reports itself started never starts it
/// again; every call, started or not, scans exactly once, as its last
/// operation.
pub proof fn lemma_started_radio_not_restarted(started: bool)
    ensures
        started ==> !call_ops(started).contains(RadioOp::Start),
        call_ops(started).last() == RadioOp::Scan,
        forall|i: int|
            0 <= i < call_ops(started).len() - 1 ==> call_ops(started)[i] != RadioOp::Scan,
{
    if started {
        assert(call_ops(true) =~= seq![RadioOp::CheckStarted, RadioOp::Scan]);
        assert(call_ops(true)[0] != RadioOp::Start);
        assert(call_ops(true)[1] != RadioOp::Start);
    } else {
        assert(call_ops(false) =~= seq![RadioOp::CheckStarted, RadioOp::Start, RadioOp::Scan]);
    }
}

} // verus!
