//! The text of a tick and of the final report.

use crate::collector::{Results, ResultsView, Tick, TickView};
use crate::error::ErrorView;
use crate::text::{decimal, fixed3, push_decimal, push_fixed3};
use vstd::prelude::*;

verus! {

/// A line of the report that shows a whole number: the label, the numeral,
/// the unit, and a line feed.
pub open spec fn count_line(label: Seq<char>, n: nat, unit: Seq<char>) -> Seq<char> {
    label + decimal(n) + unit + seq!['\n']
}

/// A line of the report that shows a quantity in thousandths with three
/// decimals: the label, the figure, the unit, and a line feed.
pub open spec fn fixed_line(label: Seq<char>, thousandths: nat, unit: Seq<char>) -> Seq<char> {
    label + fixed3(thousandths) + unit + seq!['\n']
}

fn push_count_line(out: &mut String, label: &str, n: u128, unit: &str)
    ensures
        final(out)@ == old(out)@ + count_line(label@, n as nat, unit@),
{
    proof {
        reveal_strlit("\n");
    }
    out.append(label);
    push_decimal(out, n);
    out.append(unit);
    out.append("\n");
}

fn push_fixed_line(out: &mut String, label: &str, thousandths: u128, unit: &str)
    ensures
        final(out)@ == old(out)@ + fixed_line(label@, thousandths as nat, unit@),
{
    proof {
        reveal_strlit("\n");
    }
    out.append(label);
    push_fixed3(out, thousandths);
    out.append(unit);
    out.append("\n");
}

impl TickView {
    /// The progress, the throughput of the interval, and the mark of the
    /// warm-up where it is on.
    pub open spec fn progress(self) -> Seq<char> {
        let head = "("@ + decimal(self.elapsed_secs) + " / "@ + decimal(self.total_secs) + ") "@
            + fixed3(self.throughput);
        if self.warming_up {
            head + " (warming up)"@
        } else {
            head
        }
    }

    /// The text of the tick: its progress and, where an error is pending,
    /// the count of the interval's failures and the error on a line of its
    /// own.
    pub open spec fn text(self) -> Seq<char> {
        match self.error {
            Some(err) => self.progress() + " ("@ + decimal(self.failures as nat) + " errors)\n  "@
                + err.text(),
            None => self.progress(),
        }
    }
}

/// A tick with a pending error ends in the text of that error. For a
/// response that was not found, that text is "HTTP status 404".
pub proof fn lemma_tick_shows_error(tick: TickView)
    requires
        tick.error is Some,
    ensures
        tick.text().len() >= tick.error->0.text().len(),
        tick.text().subrange(
            tick.text().len() - tick.error->0.text().len(),
            tick.text().len() as int,
        ) == tick.error->0.text(),
        tick.error == Some(ErrorView::Http(404)) ==> tick.error->0.text() == "HTTP status "@
            + seq!['4', '0', '4'],
{
    let err = tick.error->0.text();
    let head = tick.progress() + " ("@ + decimal(tick.failures as nat) + " errors)\n  "@;
    assert(tick.text() == head + err);
    assert((head + err).subrange(head.len() as int, (head + err).len() as int) =~= err);
    assert(decimal(404) =~= seq!['4', '0', '4']) by {
        reveal_with_fuel(decimal, 3);
    }
}

impl Tick {
    /// The text of the tick, without a line feed at its end.
    pub fn line(&self) -> (text: String)
        ensures
            text@ == self@.text(),
    {
        let mut out = String::from_str("(");
        push_decimal(&mut out, self.elapsed_secs);
        out.append(" / ");
        push_decimal(&mut out, self.total_secs);
        out.append(") ");
        push_fixed3(&mut out, self.throughput);
        if self.warming_up {
            out.append(" (warming up)");
        }
        match &self.error {
            Some(err) => {
                out.append(" (");
                push_decimal(&mut out, self.failures as u128);
                out.append(" errors)\n  ");
                let err_text = err.to_string();
                out.append(err_text.as_str());
            },
            None => {},
        }
        out
    }
}

impl ResultsView {
    /// The report of a run, line by line. Durations are shown in seconds
    /// and latencies in milliseconds, both with three decimals, rounded
    /// down.
    pub open spec fn report(self) -> Seq<char>
        recommends
            self.latency_pct.len() > 100,
    {
        Seq::<char>::empty() + fixed_line(
            "Duration:            "@,
            self.duration / 1000000,
            " seconds"@,
        ) + count_line("Attempted requests:  "@, self.attempts, ""@) + count_line(
            "Successful requests: "@,
            self.successes,
            ""@,
        ) + count_line("Errors:              "@, self.failures, ""@) + count_line(
            "Connections opened:  "@,
            self.connections_opened,
            ""@,
        ) + seq!['\n'] + fixed_line(
            "Throughput:          "@,
            self.throughput,
            " requests/second"@,
        ) + fixed_line("Average latency:     "@, self.latency_avg / 1000, " milliseconds"@)
            + fixed_line(
            "Minimum latency:     "@,
            self.latency_pct[0] as nat / 1000,
            " milliseconds"@,
        ) + fixed_line(
            "Maximum latency:     "@,
            self.latency_pct[100] as nat / 1000,
            " milliseconds"@,
        ) + fixed_line(
            "50% latency:         "@,
            self.latency_pct[50] as nat / 1000,
            " milliseconds"@,
        ) + fixed_line(
            "90% latency:         "@,
            self.latency_pct[90] as nat / 1000,
            " milliseconds"@,
        ) + fixed_line(
            "98% latency:         "@,
            self.latency_pct[98] as nat / 1000,
            " milliseconds"@,
        ) + fixed_line(
            "99% latency:         "@,
            self.latency_pct[99] as nat / 1000,
            " milliseconds"@,
        ) + count_line("Bytes Sent:          "@, self.bytes_sent, " bytes"@) + fixed_line(
            "Send rate:           "@,
            self.send_rate,
            " megabits / second"@,
        ) + count_line("Bytes Received:      "@, self.bytes_received, " bytes"@) + fixed_line(
            "Receive rate:        "@,
            self.receive_rate,
            " megabits / second"@,
        )
    }
}

impl Results {
    /// The report of the run, each line with its line feed.
    pub fn write(&self) -> (text: String)
        requires
            self.latency_pct@.len() > 100,
        ensures
            text@ == self@.report(),
    {
        let mut out = String::new();
        push_fixed_line(&mut out, "Duration:            ", self.duration / 1000000, " seconds");
        push_count_line(&mut out, "Attempted requests:  ", self.attempts as u128, "");
        push_count_line(&mut out, "Successful requests: ", self.successes as u128, "");
        push_count_line(&mut out, "Errors:              ", self.failures as u128, "");
        push_count_line(&mut out, "Connections opened:  ", self.connections_opened as u128, "");
        proof {
            reveal_strlit("\n");
        }
        out.append("\n");
        push_fixed_line(&mut out, "Throughput:          ", self.throughput, " requests/second");
        push_fixed_line(
            &mut out,
            "Average latency:     ",
            self.latency_avg / 1000,
            " milliseconds",
        );
        push_fixed_line(
            &mut out,
            "Minimum latency:     ",
            self.latency_pct[0] / 1000,
            " milliseconds",
        );
        push_fixed_line(
            &mut out,
            "Maximum latency:     ",
            self.latency_pct[100] / 1000,
            " milliseconds",
        );
        push_fixed_line(
            &mut out,
            "50% latency:         ",
            self.latency_pct[50] / 1000,
            " milliseconds",
        );
        push_fixed_line(
            &mut out,
            "90% latency:         ",
            self.latency_pct[90] / 1000,
            " milliseconds",
        );
        push_fixed_line(
            &mut out,
            "98% latency:         ",
            self.latency_pct[98] / 1000,
            " milliseconds",
        );
        push_fixed_line(
            &mut out,
            "99% latency:         ",
            self.latency_pct[99] / 1000,
            " milliseconds",
        );
        push_count_line(&mut out, "Bytes Sent:          ", self.bytes_sent as u128, " bytes");
        push_fixed_line(&mut out, "Send rate:           ", self.send_rate, " megabits / second");
        push_count_line(&mut out, "Bytes Received:      ", self.bytes_received as u128, " bytes");
        push_fixed_line(
            &mut out,
            "Receive rate:        ",
            self.receive_rate,
            " megabits / second",
        );
        out
    }
}

} // verus!
