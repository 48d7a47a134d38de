//! Prometheus text exposition format.
//!
//! A metric renders as a `# HELP` line, a `# TYPE` line and one sample line
//! per label set, `name{labels} value` (the braces only when there are
//! labels). Sample values arrive already written as text.
use vstd::prelude::*;

verus! {

/// Kind of metric value.
#[derive(Debug, Clone, Copy, PartialEq, Eq, Structural)]
pub enum MetricType {
    /// Cumulative counter (only grows).
    Counter,
    /// Gauge (any value).
    Gauge,
}

/// `# HELP name help`.
pub open spec fn help_line(name: Seq<char>, help: Seq<char>) -> Seq<char> {
    "# HELP "@ + name + " "@ + help + "\n"@
}

/// `# TYPE name counter` or `# TYPE name gauge`.
pub open spec fn type_line(name: Seq<char>, metric_type: MetricType) -> Seq<char> {
    "# TYPE "@ + name + match metric_type {
        MetricType::Counter => " counter\n"@,
        MetricType::Gauge => " gauge\n"@,
    }
}

/// `name value` or `name{labels} value`.
pub open spec fn sample_line(name: Seq<char>, labels: Seq<char>, value: Seq<char>) -> Seq<char> {
    name + (if labels.len() == 0 {
        Seq::<char>::empty()
    } else {
        "{"@ + labels + "}"@
    }) + " "@ + value + "\n"@
}

/// The sample lines of the first `n` samples.
pub open spec fn sample_lines(name: Seq<char>, samples: Seq<(Seq<char>, Seq<char>)>, n: nat) -> Seq<
    char,
>
    decreases n,
{
    if n == 0 || n > samples.len() {
        Seq::<char>::empty()
    } else {
        sample_lines(name, samples, (n - 1) as nat) + sample_line(
            name,
            samples[n - 1].0,
            samples[n - 1].1,
        )
    }
}

/// The text of one metric.
pub open spec fn metric_text(
    name: Seq<char>,
    help: Seq<char>,
    metric_type: MetricType,
    samples: Seq<(Seq<char>, Seq<char>)>,
) -> Seq<char> {
    help_line(name, help) + type_line(name, metric_type) + sample_lines(name, samples, samples.len())
}

/// The labels and value text of each sample.
pub open spec fn samples_view(samples: Seq<(String, String)>) -> Seq<(Seq<char>, Seq<char>)> {
    samples.map_values(|s: (String, String)| (s.0@, s.1@))
}

/// Append the text of one metric, with `samples` as (labels, value text)
/// pairs in output order.
pub fn render_metric(
    out: &mut String,
    name: &str,
    help: &str,
    metric_type: MetricType,
    samples: &Vec<(String, String)>,
)
    ensures
        final(out)@ == old(out)@ + metric_text(name@, help@, metric_type, samples_view(samples@)),
{
    proof {
        reveal_strlit("# HELP ");
        reveal_strlit(" ");
        reveal_strlit("\n");
        reveal_strlit("# TYPE ");
        reveal_strlit(" counter\n");
        reveal_strlit(" gauge\n");
        reveal_strlit("{");
        reveal_strlit("}");
    }
    let ghost start = out@;
    out.append("# HELP ");
    out.append(name);
    out.append(" ");
    out.append(help);
    out.append("\n");
    out.append("# TYPE ");
    out.append(name);
    match metric_type {
        MetricType::Counter => out.append(" counter\n"),
        MetricType::Gauge => out.append(" gauge\n"),
    }
    let ghost head = out@;
    assert(head =~= start + help_line(name@, help@) + type_line(name@, metric_type));
    let ghost sv = samples_view(samples@);
    let mut i: usize = 0;
    while i < samples.len()
        invariant
            0 <= i <= samples@.len(),
            sv == samples_view(samples@),
            out@ == head + sample_lines(name@, sv, i as nat),
        decreases samples@.len() - i,
    {
        let ghost before = out@;
        let labels = samples[i].0.as_str();
        let value = samples[i].1.as_str();
        out.append(name);
        if !labels.is_empty() {
            out.append("{");
            out.append(labels);
            out.append("}");
        }
        out.append(" ");
        out.append(value);
        out.append("\n");
        assert(sv[i as int] == (labels@, value@));
        assert(out@ =~= before + sample_line(name@, labels@, value@));
        i = i + 1;
    }
    assert(out@ =~= start + metric_text(name@, help@, metric_type, sv));
}

} // verus!
