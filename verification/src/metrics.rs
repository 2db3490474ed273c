//! The metric registry: the canonical latest-known value of every metric in
//! the catalog, and its rendering as plain-text exposition.
//!
//! The catalog is fixed at startup: a counter-style total, three gauges, and
//! one labeled gauge keyed by the network identifier. An update overwrites
//! every value from one reading — the device reports absolute totals, so
//! nothing is ever accumulated — and rendering is deterministic in the
//! current state.

use vstd::prelude::*;

use crate::homewizard::Reading;
use crate::homewizard::ReadingView;
use crate::textfmt::escape_label;
use crate::textfmt::escape_label_string;
use crate::textfmt::milli_rep;
use crate::textfmt::milli_to_string;

verus! {

/// A registry or rendering failure. The catalog is fixed and rendering is
/// total, so after a successful start none of these can arise; the channel
/// stays so callers can treat one as a skipped publish.
#[derive(Debug)]
pub enum MetricsError {
    /// A metric could not be registered under its name.
    Registration,
    /// The current state could not be encoded as exposition text.
    Encoding,
}

/// Mathematical image of the registry: one value per metric, and the label
/// of the device-info metric once a reading has been applied.
pub struct MetricsView {
    pub total_milli: int,
    pub active_milli: int,
    pub offset_milli: int,
    pub wifi_milli: int,
    pub info_ssid: Option<Seq<char>>,
}

/// The registry state a fresh start establishes: every value zero, no
/// device-info label combination exposed yet.
pub open spec fn init_metrics() -> MetricsView {
    MetricsView {
        total_milli: 0,
        active_milli: 0,
        offset_milli: 0,
        wifi_milli: 0,
        info_ssid: Option::None,
    }
}

/// The registry state after a reading is applied: every metric overwritten
/// from the reading's fields, and the reading's network identifier the one
/// exposed label combination.
pub open spec fn spec_apply(r: ReadingView) -> MetricsView {
    MetricsView {
        total_milli: r.total_liter_m3_milli,
        active_milli: r.active_liter_lpm_milli,
        offset_milli: r.total_liter_offset_m3_milli,
        wifi_milli: r.wifi_strength_milli,
        info_ssid: Option::Some(r.wifi_ssid),
    }
}

pub open spec fn total_name() -> Seq<char> {
    "homewizard_water_total_m3"@
}

pub open spec fn active_name() -> Seq<char> {
    "homewizard_water_active_flow_lpm"@
}

pub open spec fn offset_name() -> Seq<char> {
    "homewizard_water_offset_m3"@
}

pub open spec fn wifi_name() -> Seq<char> {
    "homewizard_water_wifi_strength_percent"@
}

pub open spec fn info_name() -> Seq<char> {
    "homewizard_water_meter_info"@
}

/// A help header line of one metric family.
pub open spec fn help_line(name: Seq<char>, help: Seq<char>) -> Seq<char> {
    "# HELP "@ + name + " "@ + help
}

/// A type header line of one metric family.
pub open spec fn type_line(name: Seq<char>, kind: Seq<char>) -> Seq<char> {
    "# TYPE "@ + name + " "@ + kind
}

/// The sample line of an unlabeled metric holding `m` thousandths.
pub open spec fn sample_line(name: Seq<char>, m: int) -> Seq<char> {
    name + " "@ + milli_rep(m)
}

/// The one sample line of the device-info metric: its single label holds
/// the escaped network identifier, its value is exactly 1.
pub open spec fn info_sample_line(ssid: Seq<char>) -> Seq<char> {
    "homewizard_water_meter_info{wifi_ssid=\""@ + escape_label(ssid) + "\"} 1"@
}

/// Every line of the exposition text, in registration order: help and type
/// headers followed by the sample lines of each family. The device-info
/// family exposes no sample until a reading has been applied.
pub open spec fn render_lines(v: MetricsView) -> Seq<Seq<char>> {
    seq![
        help_line(total_name(), "Total water consumption in m³"@),
        type_line(total_name(), "counter"@),
        sample_line(total_name(), v.total_milli),
        help_line(active_name(), "Current water flow in liters per minute"@),
        type_line(active_name(), "gauge"@),
        sample_line(active_name(), v.active_milli),
        help_line(offset_name(), "Water meter offset in m³"@),
        type_line(offset_name(), "gauge"@),
        sample_line(offset_name(), v.offset_milli),
        help_line(wifi_name(), "WiFi signal strength percentage"@),
        type_line(wifi_name(), "gauge"@),
        sample_line(wifi_name(), v.wifi_milli),
        help_line(info_name(), "Water meter information"@),
        type_line(info_name(), "gauge"@),
    ] + match v.info_ssid {
        Option::Some(ssid) => seq![info_sample_line(ssid)],
        Option::None => Seq::empty(),
    }
}

pub open spec fn nl() -> Seq<char> {
    seq!['\n']
}

/// The given lines laid out as one text, each line closed by a line feed.
pub open spec fn join_nl(lines: Seq<Seq<char>>) -> Seq<char>
    decreases lines.len(),
{
    if lines.len() == 0 {
        Seq::empty()
    } else {
        lines[0] + nl() + join_nl(lines.drop_first())
    }
}

/// The full exposition text of a registry state.
pub open spec fn spec_render(v: MetricsView) -> Seq<char> {
    join_nl(render_lines(v))
}

pub proof fn lemma_join_nl_append(a: Seq<Seq<char>>, b: Seq<Seq<char>>)
    ensures
        join_nl(a + b) == join_nl(a) + join_nl(b),
    decreases a.len(),
{
    if a.len() == 0 {
        assert(a + b =~= b);
        assert(join_nl(a) + join_nl(b) =~= join_nl(b));
    } else {
        lemma_join_nl_append(a.drop_first(), b);
        assert((a + b).drop_first() =~= a.drop_first() + b);
        assert((a + b)[0] == a[0]);
        assert(join_nl(a + b) =~= join_nl(a) + join_nl(b));
    }
}

/// The views of a vector of built lines.
pub open spec fn views_of(lines: Seq<String>) -> Seq<Seq<char>> {
    lines.map_values(|l: String| l@)
}

fn line_help(name: &str, help: &str) -> (r: String)
    ensures
        r@ == help_line(name@, help@),
{
    let mut r = "# HELP ".to_owned();
    r.append(name);
    r.append(" ");
    r.append(help);
    proof {
        assert(r@ =~= help_line(name@, help@));
    }
    r
}

fn line_type(name: &str, kind: &str) -> (r: String)
    ensures
        r@ == type_line(name@, kind@),
{
    let mut r = "# TYPE ".to_owned();
    r.append(name);
    r.append(" ");
    r.append(kind);
    proof {
        assert(r@ =~= type_line(name@, kind@));
    }
    r
}

fn line_sample(name: &str, m: i64) -> (r: String)
    ensures
        r@ == sample_line(name@, m as int),
{
    let mut r = name.to_owned();
    r.append(" ");
    r.append(milli_to_string(m).as_str());
    proof {
        assert(r@ =~= sample_line(name@, m as int));
    }
    r
}

fn line_info_sample(ssid: &str) -> (r: String)
    ensures
        r@ == info_sample_line(ssid@),
{
    let mut r = "homewizard_water_meter_info{wifi_ssid=\"".to_owned();
    r.append(escape_label_string(ssid).as_str());
    r.append("\"} 1");
    proof {
        assert(r@ =~= info_sample_line(ssid@));
    }
    r
}

/// True of a line that is a sample of the labeled device-info metric.
pub open spec fn is_info_sample(line: Seq<char>) -> bool {
    "homewizard_water_meter_info{"@.is_prefix_of(line)
}

proof fn lemma_hash_line_not_info(line: Seq<char>)
    requires
        line.len() > 0,
        line[0] == '#',
    ensures
        !is_info_sample(line),
{
    reveal_strlit("homewizard_water_meter_info{");
    if is_info_sample(line) {
        assert(line.subrange(0, 28)[0] == line[0]);
        assert(false);
    }
}

proof fn lemma_sample_not_info(name: Seq<char>, rest: Seq<char>)
    requires
        name.len() > 17,
        name[17] != 'm',
    ensures
        !is_info_sample(name + " "@ + rest),
{
    reveal_strlit("homewizard_water_meter_info{");
    let line = name + " "@ + rest;
    if is_info_sample(line) {
        assert(line.subrange(0, 28)[17] == line[17]);
        assert(line[17] == name[17]);
        assert(false);
    }
}

/// After any applied reading, the rendered lines hold exactly one sample
/// of the labeled device-info metric — the last line — and it is the line
/// whose one label value is that reading's network identifier and whose
/// value is exactly 1; it stands verbatim in the flat exposition text.
pub proof fn lemma_info_sample_unique(v: MetricsView)
    requires
        v.info_ssid is Some,
    ensures
        render_lines(v).len() == 15,
        render_lines(v)[14] == info_sample_line(v.info_ssid.unwrap()),
        forall|i: int|
            0 <= i < 15 ==> (is_info_sample(#[trigger] render_lines(v)[i]) <==> i == 14),
        exists|k: int|
            0 <= k && k + info_sample_line(v.info_ssid.unwrap()).len() <= spec_render(v).len()
                && #[trigger] spec_render(v).subrange(
                k,
                k + info_sample_line(v.info_ssid.unwrap()).len(),
            ) == info_sample_line(v.info_ssid.unwrap()),
{
    let lines = render_lines(v);
    let ssid = v.info_ssid.unwrap();
    lemma_join_nl_contains(lines, 14);
    let kw = choose|k: int|
        0 <= k && k + lines[14].len() <= join_nl(lines).len() && #[trigger] join_nl(
            lines,
        ).subrange(k, k + lines[14].len()) == lines[14];
    assert(spec_render(v).subrange(kw, kw + info_sample_line(ssid).len()) == info_sample_line(
        ssid,
    ));
    reveal_strlit("# HELP ");
    reveal_strlit("# TYPE ");
    reveal_strlit("homewizard_water_total_m3");
    reveal_strlit("homewizard_water_active_flow_lpm");
    reveal_strlit("homewizard_water_offset_m3");
    reveal_strlit("homewizard_water_wifi_strength_percent");
    reveal_strlit("homewizard_water_meter_info{");
    reveal_strlit("homewizard_water_meter_info{wifi_ssid=\"");
    assert(lines[14] == info_sample_line(ssid));
    assert(is_info_sample(lines[14])) by {
        let pre = "homewizard_water_meter_info{"@;
        assert(pre =~= lines[14].subrange(0, 28));
    }
    assert forall|i: int| 0 <= i < 15 implies (is_info_sample(#[trigger] lines[i]) <==> i
        == 14) by {
        if i == 2 {
            lemma_sample_not_info(total_name(), milli_rep(v.total_milli));
        } else if i == 5 {
            lemma_sample_not_info(active_name(), milli_rep(v.active_milli));
        } else if i == 8 {
            lemma_sample_not_info(offset_name(), milli_rep(v.offset_milli));
        } else if i == 11 {
            lemma_sample_not_info(wifi_name(), milli_rep(v.wifi_milli));
        } else if i == 14 {
            assert(is_info_sample(lines[14]));
        } else {
            assert(lines[i][0] == '#');
            lemma_hash_line_not_info(lines[i]);
        }
    }
}

proof fn lemma_sample_line_cancel(name: Seq<char>, a: int, b: int)
    requires
        sample_line(name, a) == sample_line(name, b),
    ensures
        milli_rep(a) == milli_rep(b),
{
    let p = name + " "@;
    let la = sample_line(name, a);
    let lb = sample_line(name, b);
    assert(milli_rep(a) =~= la.subrange(p.len() as int, la.len() as int));
    assert(milli_rep(b) =~= lb.subrange(p.len() as int, lb.len() as int));
}

/// Each line stands contiguously in the joined text, closed by its line
/// feed.
pub proof fn lemma_join_nl_contains(lines: Seq<Seq<char>>, i: int)
    requires
        0 <= i < lines.len(),
    ensures
        exists|k: int|
            0 <= k && k + lines[i].len() <= join_nl(lines).len() && #[trigger] join_nl(
                lines,
            ).subrange(k, k + lines[i].len()) == lines[i],
    decreases i,
{
    let whole = join_nl(lines);
    if i == 0 {
        let kk: int = 0;
        assert(whole.subrange(kk, kk + lines[i].len()) == lines[i]) by {
            assert(whole.subrange(kk, kk + lines[i].len()) =~= lines[0]);
        }
    } else {
        lemma_join_nl_contains(lines.drop_first(), i - 1);
        let rest = join_nl(lines.drop_first());
        let l = lines.drop_first()[i - 1];
        let k0 = choose|k0: int|
            0 <= k0 && k0 + l.len() <= rest.len() && #[trigger] rest.subrange(k0, k0 + l.len())
                == l;
        let k = k0 + lines[0].len() + 1;
        assert(lines.drop_first()[i - 1] == lines[i]);
        assert(whole.subrange(k, k + lines[i].len()) == lines[i]) by {
            assert(whole.subrange(k, k + lines[i].len()) =~= rest.subrange(k0, k0 + l.len()));
        }
    }
}

/// The total-consumption metric never accumulates: after a reading is
/// applied, the flat exposition text contains that reading's total sample
/// line verbatim, and that line differs from the one any earlier reading
/// with a differently rendered total would have produced.
pub proof fn lemma_no_accumulation(r1: ReadingView, r2: ReadingView)
    ensures
        render_lines(spec_apply(r2))[2] == sample_line(total_name(), r2.total_liter_m3_milli),
        exists|k: int|
            0 <= k && k + sample_line(total_name(), r2.total_liter_m3_milli).len() <= spec_render(
                spec_apply(r2),
            ).len() && #[trigger] spec_render(spec_apply(r2)).subrange(
                k,
                k + sample_line(total_name(), r2.total_liter_m3_milli).len(),
            ) == sample_line(total_name(), r2.total_liter_m3_milli),
        milli_rep(r1.total_liter_m3_milli) != milli_rep(r2.total_liter_m3_milli)
            ==> render_lines(spec_apply(r2))[2] != sample_line(
            total_name(),
            r1.total_liter_m3_milli,
        ),
{
    let lines = render_lines(spec_apply(r2));
    let l = sample_line(total_name(), r2.total_liter_m3_milli);
    lemma_join_nl_contains(lines, 2);
    let k = choose|k: int|
        0 <= k && k + lines[2].len() <= join_nl(lines).len() && #[trigger] join_nl(
            lines,
        ).subrange(k, k + lines[2].len()) == lines[2];
    assert(spec_render(spec_apply(r2)).subrange(k, k + l.len()) == l);
    if milli_rep(r1.total_liter_m3_milli) != milli_rep(r2.total_liter_m3_milli) {
        if render_lines(spec_apply(r2))[2] == sample_line(
            total_name(),
            r1.total_liter_m3_milli,
        ) {
            lemma_sample_line_cancel(
                total_name(),
                r2.total_liter_m3_milli,
                r1.total_liter_m3_milli,
            );
            assert(false);
        }
    }
}

/// The registry itself: the latest-known value per metric. Created once at
/// process start; mutated exactly once per successful reading.
#[derive(Debug)]
pub struct Metrics {
    total_milli: i64,
    active_milli: i64,
    offset_milli: i64,
    wifi_milli: i64,
    info_ssid: Option<String>,
}

impl View for Metrics {
    type V = MetricsView;

    closed spec fn view(&self) -> MetricsView {
        MetricsView {
            total_milli: self.total_milli as int,
            active_milli: self.active_milli as int,
            offset_milli: self.offset_milli as int,
            wifi_milli: self.wifi_milli as int,
            info_ssid: match self.info_ssid {
                Option::Some(s) => Option::Some(s@),
                Option::None => Option::None,
            },
        }
    }
}

impl Metrics {
    /// Registers the whole catalog under its fixed names. The names are
    /// distinct, so registration cannot collide; the error channel stays
    /// for the caller, which treats a failure here as fatal at startup.
    pub fn new() -> (r: Result<Metrics, MetricsError>)
        ensures
            r matches Ok(m) && m@ == init_metrics(),
    {
        Ok(
            Metrics {
                total_milli: 0,
                active_milli: 0,
                offset_milli: 0,
                wifi_milli: 0,
                info_ssid: Option::None,
            },
        )
    }

    /// Applies one reading: every metric is overwritten with the reading's
    /// value — the total is reset to the reported absolute figure, never
    /// added to — and the reading's network identifier becomes the one
    /// exposed device-info label.
    pub fn update(&mut self, data: &Reading) -> (r: Result<(), MetricsError>)
        ensures
            r.is_ok(),
            final(self)@ == spec_apply(data@),
    {
        self.total_milli = data.total_liter_m3_milli;
        self.active_milli = data.active_liter_lpm_milli;
        self.offset_milli = data.total_liter_offset_m3_milli;
        self.wifi_milli = data.wifi_strength_milli;
        self.info_ssid = Some(data.wifi_ssid.clone());
        Ok(())
    }

    /// Renders the current state as exposition text, family by family in
    /// registration order. Deterministic in the state; cannot fail.
    pub fn gather(&self) -> (r: Result<String, MetricsError>)
        ensures
            r matches Ok(text) && text@ == spec_render(self@),
    {
        let mut lines: Vec<String> = Vec::new();
        lines.push(line_help("homewizard_water_total_m3", "Total water consumption in m³"));
        lines.push(line_type("homewizard_water_total_m3", "counter"));
        lines.push(line_sample("homewizard_water_total_m3", self.total_milli));
        lines.push(
            line_help("homewizard_water_active_flow_lpm", "Current water flow in liters per minute"),
        );
        lines.push(line_type("homewizard_water_active_flow_lpm", "gauge"));
        lines.push(line_sample("homewizard_water_active_flow_lpm", self.active_milli));
        lines.push(line_help("homewizard_water_offset_m3", "Water meter offset in m³"));
        lines.push(line_type("homewizard_water_offset_m3", "gauge"));
        lines.push(line_sample("homewizard_water_offset_m3", self.offset_milli));
        lines.push(
            line_help("homewizard_water_wifi_strength_percent", "WiFi signal strength percentage"),
        );
        lines.push(line_type("homewizard_water_wifi_strength_percent", "gauge"));
        lines.push(line_sample("homewizard_water_wifi_strength_percent", self.wifi_milli));
        lines.push(line_help("homewizard_water_meter_info", "Water meter information"));
        lines.push(line_type("homewizard_water_meter_info", "gauge"));
        match &self.info_ssid {
            Some(ssid) => {
                lines.push(line_info_sample(ssid.as_str()));
            },
            None => {},
        }
        proof {
            assert(views_of(lines@) =~= render_lines(self@));
        }
        let slen = lines.len();
        let mut out = String::new();
        let mut i: usize = 0;
        while i < slen
            invariant
                slen == lines@.len(),
                i <= slen,
                views_of(lines@) == render_lines(self@),
                out@ == join_nl(views_of(lines@).subrange(0, i as int)),
            decreases slen - i,
        {
            out.append(lines[i].as_str());
            proof {
                reveal_strlit("\n");
                assert("\n"@ =~= nl());
            }
            out.append("\n");
            proof {
                let vs = views_of(lines@);
                lemma_join_nl_append(vs.subrange(0, i as int), seq![vs[i as int]]);
                assert(vs.subrange(0, i + 1) =~= vs.subrange(0, i as int) + seq![vs[i as int]]);
                assert(seq![vs[i as int]].drop_first() =~= Seq::<Seq<char>>::empty());
                assert(join_nl(Seq::<Seq<char>>::empty()) == Seq::<char>::empty());
                assert(join_nl(seq![vs[i as int]]) =~= vs[i as int] + nl());
            }
            i = i + 1;
        }
        proof {
            assert(views_of(lines@).subrange(0, slen as int) =~= views_of(lines@));
        }
        Ok(out)
    }
}

} // verus!
