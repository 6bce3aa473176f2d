//! The schedule of a haptic sequence: when which intensity is sent.

use crate::effect::FfEffect;
use crate::text::{debug_text, decimal, decimal_text, join, joined, quoted, texts};
use crate::translate::{
    end_point, is_translated_kind, sequence_ends_in_silence, sequence_goes_forward, translated,
    HapticPoint,
};
use vstd::prelude::*;
use vstd::string::StringExecFns;

verus! {

/// Between two points of a sequence an intensity is sent every so many milliseconds.
pub const STEP_MS: u32 = 25;

/// The intensity that is sent.
#[derive(Debug, Clone, Copy, PartialEq, Eq)]
pub enum Level<I> {
    /// That of a point.
    Exact { intensity: I },
    /// `elapsed_ms / span_ms` of the way from `from` to `to`.
    Between { from: I, to: I, elapsed_ms: u32, span_ms: u32 },
}

/// An intensity to be sent, `t_ms` after the start of the sequence.
#[derive(Debug, Clone, Copy, PartialEq, Eq)]
pub struct Keyframe<I> {
    pub t_ms: u32,
    pub level: Level<I>,
}

/// The keyframe of a point.
pub open spec fn exact<I>(point: HapticPoint<I>) -> Keyframe<I> {
    Keyframe { t_ms: point.dt_ms, level: Level::Exact { intensity: point.intensity } }
}

/// How many whole steps from one point fall before the next.
pub open spec fn steps_between<I>(from: HapticPoint<I>, to: HapticPoint<I>) -> nat {
    if from.dt_ms < to.dt_ms {
        ((to.dt_ms - from.dt_ms - 1) / STEP_MS as int) as nat
    } else {
        0
    }
}

/// The keyframe `k` steps from one point on towards the next.
pub open spec fn step<I>(from: HapticPoint<I>, to: HapticPoint<I>, k: int) -> Keyframe<I> {
    Keyframe {
        t_ms: (from.dt_ms + STEP_MS * k) as u32,
        level: Level::Between {
            from: from.intensity,
            to: to.intensity,
            elapsed_ms: (STEP_MS * k) as u32,
            span_ms: (to.dt_ms - from.dt_ms) as u32,
        },
    }
}

/// The keyframes that fill the gap between two points.
pub open spec fn filling<I>(from: HapticPoint<I>, to: HapticPoint<I>) -> Seq<Keyframe<I>> {
    Seq::new(steps_between(from, to), |k: int| step(from, to, k + 1))
}

/// The schedule of a sequence: the keyframe of every point, and the gaps between them filled.
pub open spec fn interpolated<I>(points: Seq<HapticPoint<I>>) -> Seq<Keyframe<I>>
    decreases points.len(),
{
    if points.len() == 0 {
        seq![]
    } else if points.len() == 1 {
        seq![exact(points[0])]
    } else {
        (interpolated(points.drop_last()) + filling(points[points.len() - 2], points.last())).push(
            exact(points.last()),
        )
    }
}

/// The first step from one point that does not fall before the next is a time, so that the steps
/// can be counted.
pub open spec fn steps_fit<I>(from: HapticPoint<I>, to: HapticPoint<I>) -> bool {
    from.dt_ms < to.dt_ms ==> from.dt_ms + STEP_MS * (steps_between(from, to) + 1) <= u32::MAX
}

/// The steps between all neighbours of a sequence can be counted.
pub open spec fn all_steps_fit<I>(points: Seq<HapticPoint<I>>) -> bool {
    forall|i: int| 0 <= i < points.len() - 1 ==> steps_fit(#[trigger] points[i], points[i + 1])
}

fn fill<I: Copy>(from: &HapticPoint<I>, to: &HapticPoint<I>, schedule: &mut Vec<Keyframe<I>>)
    requires
        steps_fit(*from, *to),
    ensures
        final(schedule)@ == old(schedule)@ + filling(*from, *to),
{
    let ghost start = schedule@;
    let span_ms: u32 = to.dt_ms.saturating_sub(from.dt_ms);
    if span_ms > 0 {
        let mut t_ms: u32 = from.dt_ms + STEP_MS;
        let ghost mut k: int = 0;
        while t_ms < to.dt_ms
            invariant
                steps_fit(*from, *to),
                from.dt_ms < to.dt_ms,
                span_ms == to.dt_ms - from.dt_ms,
                0 <= k <= steps_between(*from, *to),
                t_ms == from.dt_ms + STEP_MS * (k + 1),
                schedule@ =~= start + filling(*from, *to).subrange(0, k),
            decreases to.dt_ms + STEP_MS - t_ms,
        {
            proof {
                assert(k < steps_between(*from, *to)) by (nonlinear_arith)
                    requires
                        from.dt_ms + STEP_MS * (k + 1) < to.dt_ms,
                        from.dt_ms < to.dt_ms,
                        steps_between(*from, *to) == (to.dt_ms - from.dt_ms - 1) / STEP_MS as int,
                        STEP_MS == 25,
                ;
            }
            let keyframe = Keyframe {
                t_ms,
                level: Level::Between {
                    from: from.intensity,
                    to: to.intensity,
                    elapsed_ms: t_ms - from.dt_ms,
                    span_ms,
                },
            };
            assert(keyframe == step(*from, *to, k + 1));
            schedule.push(keyframe);
            t_ms = t_ms + STEP_MS;
            proof {
                k = k + 1;
            }
        }
        assert(k == steps_between(*from, *to));
        assert(filling(*from, *to).subrange(0, k) =~= filling(*from, *to));
    } else {
        assert(filling(*from, *to) =~= seq![]);
    }
}

/// Makes the schedule of a sequence. The exact time of every point is met; the gaps between them
/// are filled every [`STEP_MS`], so that a ramp is smooth.
pub fn interpolate_points<I: Copy>(points: &Vec<HapticPoint<I>>) -> (schedule: Vec<Keyframe<I>>)
    requires
        all_steps_fit(points@),
    ensures
        schedule@ == interpolated(points@),
{
    let mut schedule: Vec<Keyframe<I>> = Vec::new();
    let mut i: usize = 0;
    while i < points.len()
        invariant
            all_steps_fit(points@),
            i <= points@.len(),
            schedule@ =~= interpolated(points@.subrange(0, i as int)),
        decreases points@.len() - i,
    {
        let ghost so_far = points@.subrange(0, i as int);
        let ghost next = points@.subrange(0, i + 1);
        assert(next.drop_last() =~= so_far);
        if i > 0 {
            assert(steps_fit(points@[i - 1], points@[i - 1 + 1]));
            fill(&points[i - 1], &points[i], &mut schedule);
        }
        schedule.push(
            Keyframe {
                t_ms: points[i].dt_ms,
                level: Level::Exact { intensity: points[i].intensity },
            },
        );
        i = i + 1;
    }
    assert(points@.subrange(0, i as int) =~= points@);
    schedule
}

/// How a time and an intensity are written.
pub open spec fn label(moment: (u32, String)) -> Seq<char> {
    decimal(moment.0 as nat) + "ms:"@ + moment.1@
}

/// How times and intensities are written, each by itself.
pub open spec fn labels(moments: Seq<(u32, String)>) -> Seq<Seq<char>> {
    moments.map_values(|moment: (u32, String)| label(moment))
}

/// The time of the last keyframe; zero where there is none.
pub open spec fn duration_ms(keyframes: Seq<(u32, String)>) -> u32 {
    if keyframes.len() == 0 {
        0
    } else {
        keyframes.last().0
    }
}

/// The report of a schedule for a device, whose quoted id is `device`.
pub open spec fn schedule_report(
    device: Seq<char>,
    boundaries: Seq<(u32, String)>,
    keyframes: Seq<(u32, String)>,
) -> Seq<char> {
    "play device="@ + device + ": "@ + decimal(boundaries.len()) + " boundary point(s), "@
        + decimal(keyframes.len()) + " keyframe(s) over "@ + decimal(
        duration_ms(keyframes) as nat,
    ) + "ms\n  boundaries: "@ + joined(labels(boundaries), " -> "@) + "\n  keyframes:  "@ + joined(
        labels(keyframes),
        " "@,
    )
}

fn write_labels(moments: &Vec<(u32, String)>) -> (written: Vec<String>)
    ensures
        texts(written@) == labels(moments@),
{
    let mut written: Vec<String> = Vec::new();
    let mut i: usize = 0;
    while i < moments.len()
        invariant
            i <= moments@.len(),
            texts(written@) =~= labels(moments@.subrange(0, i as int)),
        decreases moments@.len() - i,
    {
        let ghost before = written@;
        let mut text = decimal_text(moments[i].0 as u64);
        text.append("ms:");
        text.append(moments[i].1.as_str());
        written.push(text);
        proof {
            assert(text@ =~= label(moments@[i as int]));
            assert(texts(written@) =~= texts(before).push(label(moments@[i as int])));
            assert(labels(moments@.subrange(0, i + 1)) =~= labels(
                moments@.subrange(0, i as int),
            ).push(label(moments@[i as int])));
        }
        i = i + 1;
    }
    assert(moments@.subrange(0, i as int) =~= moments@);
    written
}

/// Writes the report of a schedule for a device, whose quoted id is `device`. The points of the
/// sequence and the keyframes of the schedule come with their intensities already written.
pub fn write_schedule_report(
    device: &str,
    boundaries: &Vec<(u32, String)>,
    keyframes: &Vec<(u32, String)>,
) -> (report: String)
    ensures
        report@ == schedule_report(device@, boundaries@, keyframes@),
{
    let duration: u32 = if keyframes.len() == 0 {
        0
    } else {
        keyframes[keyframes.len() - 1].0
    };
    let mut report = "play device=".to_owned();
    report.append(device);
    report.append(": ");
    report.append(decimal_text(boundaries.len() as u64).as_str());
    report.append(" boundary point(s), ");
    report.append(decimal_text(keyframes.len() as u64).as_str());
    report.append(" keyframe(s) over ");
    report.append(decimal_text(duration as u64).as_str());
    report.append("ms\n  boundaries: ");
    report.append(join(&write_labels(boundaries), " -> ").as_str());
    report.append("\n  keyframes:  ");
    report.append(join(&write_labels(keyframes), " ").as_str());
    report
}

/// Writes the report of a schedule for the device `device_id`.
pub fn format_schedule_log(
    device_id: &str,
    boundaries: &Vec<(u32, String)>,
    keyframes: &Vec<(u32, String)>,
) -> (report: String)
    ensures
        report@ == schedule_report(debug_text(device_id@), boundaries@, keyframes@),
{
    write_schedule_report(quoted(device_id).as_str(), boundaries, keyframes)
}

/// The place in the schedule of the keyframe of the point at `i`.
pub open spec fn place<I>(points: Seq<HapticPoint<I>>, i: int) -> int {
    interpolated(points.subrange(0, i + 1)).len() - 1
}

proof fn lemma_prefix<I>(points: Seq<HapticPoint<I>>, n: int)
    requires
        0 <= n <= points.len(),
    ensures
        interpolated(points.subrange(0, n)).len() <= interpolated(points).len(),
        interpolated(points).subrange(0, interpolated(points.subrange(0, n)).len() as int)
            =~= interpolated(points.subrange(0, n)),
    decreases points.len(),
{
    if n == points.len() {
        assert(points.subrange(0, n) =~= points);
    } else {
        let rest = points.drop_last();
        assert(rest.subrange(0, n) =~= points.subrange(0, n));
        lemma_prefix(rest, n);
        let whole = interpolated(points);
        let part = interpolated(rest);
        assert(whole.len() >= part.len());
        assert(whole.subrange(0, part.len() as int) =~= part) by {
            if points.len() == 1 {
                assert(part =~= seq![]);
            }
        }
        let shorter = interpolated(points.subrange(0, n)).len() as int;
        assert(whole.subrange(0, shorter) =~= part.subrange(0, shorter));
    }
}

/// The schedule meets every point at its exact time and with its exact intensity, in their order,
/// and begins with the first and ends with the last.
pub proof fn schedule_meets_every_point<I>(points: Seq<HapticPoint<I>>, i: int)
    requires
        0 <= i < points.len(),
    ensures
        0 <= place(points, i) < interpolated(points).len(),
        interpolated(points)[place(points, i)] == exact(points[i]),
        i > 0 ==> place(points, i - 1) < place(points, i),
        place(points, 0) == 0,
        place(points, points.len() - 1) == interpolated(points).len() - 1,
{
    let head = points.subrange(0, i + 1);
    lemma_prefix(points, i + 1);
    assert(head.last() == points[i]);
    assert(head.drop_last() =~= points.subrange(0, i));
    assert(interpolated(head).last() == exact(points[i]));
    assert(interpolated(points).subrange(0, interpolated(head).len() as int)[place(points, i)]
        == interpolated(head)[place(points, i)]);
    assert(points.subrange(0, points.len() as int) =~= points);
    if i > 0 {
        assert(points.subrange(0, i - 1 + 1) =~= points.subrange(0, i));
    }
    assert(points.subrange(0, 1).len() == 1);
}

/// The points go forward in time.
pub open spec fn goes_forward<I>(points: Seq<HapticPoint<I>>) -> bool {
    forall|i: int, j: int|
        0 <= i <= j < points.len() ==> (#[trigger] points[i]).dt_ms <= (#[trigger] points[j]).dt_ms
}

/// Where the points go forward in time, so does the schedule, and no two neighbours of it are more
/// than one step apart.
pub proof fn schedule_is_dense<I>(points: Seq<HapticPoint<I>>, k: int)
    requires
        goes_forward(points),
        0 <= k < interpolated(points).len() - 1,
    ensures
        interpolated(points)[k].t_ms <= interpolated(points)[k + 1].t_ms
            <= interpolated(points)[k].t_ms + STEP_MS,
    decreases points.len(),
{
    let n = points.len();
    if n > 1 {
        let rest = points.drop_last();
        let part = interpolated(rest);
        let from = points[n - 2];
        let to = points[n - 1];
        let gap = filling(from, to);
        assert(goes_forward(rest)) by {
            assert forall|i: int, j: int| 0 <= i <= j < rest.len() implies (
            #[trigger] rest[i]).dt_ms <= (#[trigger] rest[j]).dt_ms by {
                assert(points[i].dt_ms <= points[j].dt_ms);
            }
        }
        assert(from.dt_ms <= to.dt_ms);
        assert(rest.last() == from);
        assert(part.last() == exact(from));
        let whole = interpolated(points);
        assert(whole =~= (part + gap).push(exact(to)));
        if k + 1 < part.len() {
            schedule_is_dense(rest, k);
        } else {
            let a = k - part.len() + 1;
            let at = whole[k];
            let next = whole[k + 1];
            assert(at.t_ms == from.dt_ms + STEP_MS * a) by {
                if a > 0 {
                    assert(at == gap[a - 1]);
                    assert(at == step(from, to, a));
                }
            }
            if a < gap.len() {
                assert(next == step(from, to, a + 1));
            } else {
                assert(next == exact(to));
            }
        }
    }
}

/// Between two points the intensity is strictly on its way: some of the time between them has
/// passed, and not all of it.
pub proof fn fillings_are_on_their_way<I>(points: Seq<HapticPoint<I>>, k: int)
    requires
        0 <= k < interpolated(points).len(),
    ensures
        interpolated(points)[k].level matches Level::Between { elapsed_ms, span_ms, .. } ==> 0
            < elapsed_ms < span_ms,
    decreases points.len(),
{
    let n = points.len();
    if n > 1 {
        let rest = points.drop_last();
        let part = interpolated(rest);
        let gap = filling(points[n - 2], points[n - 1]);
        let whole = interpolated(points);
        assert(whole =~= (part + gap).push(exact(points[n - 1])));
        if k < part.len() {
            fillings_are_on_their_way(rest, k);
        } else if k < part.len() + gap.len() {
            let a = k - part.len();
            assert(whole[k] == step(points[n - 2], points[n - 1], a + 1));
        }
    }
}

/// Every translated effect can be scheduled, and its schedule ends in silence when the replay is
/// over.
pub proof fn translation_can_be_scheduled(effect: FfEffect)
    ensures
        all_steps_fit(translated(effect)),
        is_translated_kind(effect.kind) ==> interpolated(translated(effect)).len() > 0
            && interpolated(translated(effect)).last() == exact(
            end_point(effect.replay_length as u32),
        ),
{
    let points = translated(effect);
    assert forall|i: int| 0 <= i < points.len() - 1 implies steps_fit(
        #[trigger] points[i],
        points[i + 1],
    ) by {
        sequence_goes_forward(effect, i, i + 1);
    }
    sequence_ends_in_silence(effect);
    if is_translated_kind(effect.kind) {
        schedule_meets_every_point(points, points.len() - 1);
    }
}

/// The schedule of a sequence, point by point. Every point has a keyframe with its time and its
/// intensity. From a point to the next one that is later, there is a keyframe every 25 milliseconds
/// as long as that is before the next; it says how much of the time between the two points has
/// passed when it is due, how long that time is, and what their intensities are. There are no other
/// keyframes.
pub proof fn schedule_goes_from_point_to_point<I: Copy>(
    points: Vec<HapticPoint<I>>,
    schedule: Vec<Keyframe<I>>,
    i: int,
)
    requires
        call_ensures(interpolate_points::<I>, (&points,), schedule),
        0 <= i < points@.len(),
    ensures
        place(points@, 0) == 0,
        place(points@, points@.len() - 1) == schedule@.len() - 1,
        0 <= place(points@, i) < schedule@.len(),
        schedule@[place(points@, i)].t_ms == points@[i].dt_ms,
        schedule@[place(points@, i)].level == (Level::Exact { intensity: points@[i].intensity }),
        i + 1 < points@.len() ==> ({
            let from = points@[i];
            let to = points@[i + 1];
            let between = place(points@, i + 1) - place(points@, i) - 1;
            &&& to.dt_ms <= from.dt_ms ==> between == 0
            &&& from.dt_ms < to.dt_ms ==> 0 <= 25 * between < to.dt_ms - from.dt_ms <= 25 * (between
                + 1)
            &&& forall|k: int|
                place(points@, i) < k < place(points@, i + 1) ==> ((
                #[trigger] schedule@[k]).level matches Level::Between {
                    from: start,
                    to: end,
                    elapsed_ms,
                    span_ms,
                } && {
                    &&& start == from.intensity
                    &&& end == to.intensity
                    &&& span_ms == to.dt_ms - from.dt_ms
                    &&& schedule@[k].t_ms == from.dt_ms + elapsed_ms
                    &&& elapsed_ms == 25 * (k - place(points@, i))
                })
        }),
{
    schedule_meets_every_point(points@, i);
    if i + 1 < points@.len() {
        schedule_meets_every_point(points@, i + 1);
        let from = points@[i];
        let to = points@[i + 1];
        let head = points@.subrange(0, i + 2);
        lemma_prefix(points@, i + 2);
        assert(head.drop_last() =~= points@.subrange(0, i + 1));
        assert(points@.subrange(0, i + 1 + 1) =~= head);
        assert(head[head.len() - 2] == from && head.last() == to);
        let part = interpolated(head.drop_last());
        let gap = filling(from, to);
        assert(interpolated(head) =~= (part + gap).push(exact(to)));
        assert(place(points@, i) == part.len() - 1);
        assert(place(points@, i + 1) == part.len() + gap.len());
        assert forall|k: int| place(points@, i) < k < place(points@, i + 1) implies #[trigger]
            schedule@[k] == step(from, to, k - place(points@, i)) by {
            assert(interpolated(points@).subrange(0, interpolated(head).len() as int)[k]
                == interpolated(head)[k]);
            assert(interpolated(head)[k] == gap[k - part.len()]);
        }
        assert forall|k: int| place(points@, i) < k < place(points@, i + 1) implies ((
        #[trigger] schedule@[k]).level matches Level::Between {
            from: start,
            to: end,
            elapsed_ms,
            span_ms,
        } && {
            &&& start == from.intensity
            &&& end == to.intensity
            &&& span_ms == to.dt_ms - from.dt_ms
            &&& schedule@[k].t_ms == from.dt_ms + elapsed_ms
            &&& elapsed_ms == 25 * (k - place(points@, i))
        }) by {
            assert(schedule@[k] == step(from, to, k - place(points@, i)));
        }
    }
}

/// A sequence without points has nothing scheduled.
pub proof fn nothing_is_scheduled_for_nothing<I: Copy>(
    points: Vec<HapticPoint<I>>,
    schedule: Vec<Keyframe<I>>,
)
    requires
        call_ensures(interpolate_points::<I>, (&points,), schedule),
    ensures
        points@.len() == 0 <==> schedule@.len() == 0,
{
    if points@.len() > 0 {
        schedule_meets_every_point(points@, 0);
    }
}

/// Wherever a keyframe fills a gap, it stands between two neighbouring points: its intensity goes
/// from that of the earlier to that of the later, over the time between them, and as much of that
/// time has passed as lies between the earlier point and the keyframe.
pub proof fn filling_keyframe_lies_between_its_points<I: Copy>(
    points: Vec<HapticPoint<I>>,
    schedule: Vec<Keyframe<I>>,
    k: int,
)
    requires
        call_ensures(interpolate_points::<I>, (&points,), schedule),
        0 <= k < schedule@.len(),
    ensures
        schedule@[k].level matches Level::Between { from, to, elapsed_ms, span_ms } ==> exists|
            i: int,
        |
            0 <= i < points@.len() - 1 && from == (#[trigger] points@[i]).intensity && to
                == points@[i + 1].intensity && points@[i].dt_ms + span_ms == points@[i + 1].dt_ms
                && points@[i].dt_ms + elapsed_ms == schedule@[k].t_ms,
        schedule@[k].level matches Level::Exact { intensity } ==> exists|i: int|
            0 <= i < points@.len() && intensity == (#[trigger] points@[i]).intensity
                && points@[i].dt_ms == schedule@[k].t_ms,
{
    nothing_is_scheduled_for_nothing(points, schedule);
    schedule_goes_from_point_to_point(points, schedule, 0);
    lemma_gap_of(points, schedule, k, points@.len() - 1);
}

proof fn lemma_gap_of<I: Copy>(
    points: Vec<HapticPoint<I>>,
    schedule: Vec<Keyframe<I>>,
    k: int,
    i: int,
)
    requires
        call_ensures(interpolate_points::<I>, (&points,), schedule),
        0 <= i < points@.len(),
        0 <= k <= place(points@, i),
        place(points@, i) < schedule@.len(),
    ensures
        schedule@[k].level matches Level::Between { from, to, elapsed_ms, span_ms } ==> exists|
            j: int,
        |
            0 <= j < points@.len() - 1 && from == (#[trigger] points@[j]).intensity && to
                == points@[j + 1].intensity && points@[j].dt_ms + span_ms == points@[j + 1].dt_ms
                && points@[j].dt_ms + elapsed_ms == schedule@[k].t_ms,
        schedule@[k].level matches Level::Exact { intensity } ==> exists|j: int|
            0 <= j < points@.len() && intensity == (#[trigger] points@[j]).intensity
                && points@[j].dt_ms == schedule@[k].t_ms,
    decreases i,
{
    schedule_goes_from_point_to_point(points, schedule, i);
    if k == place(points@, i) {
        assert(points@[i].dt_ms == schedule@[k].t_ms);
    } else if i > 0 {
        schedule_goes_from_point_to_point(points, schedule, i - 1);
        if k > place(points@, i - 1) {
            assert(points@[i - 1 + 1] == points@[i]);
            assert(schedule@[k].level is Between);
            assert(points@[i - 1].dt_ms + schedule@[k].level->elapsed_ms == schedule@[k].t_ms);
        } else {
            lemma_gap_of(points, schedule, k, i - 1);
        }
    }
}

/// A report tells the device, how many points and keyframes there are, when the last keyframe is
/// due (zero where there is none), and all points and all keyframes in their order, each with its
/// time and its intensity.
pub proof fn report_tells_every_moment(
    device: &str,
    boundaries: Vec<(u32, String)>,
    keyframes: Vec<(u32, String)>,
    report: String,
    last_ms: nat,
)
    requires
        call_ensures(write_schedule_report, (device, &boundaries, &keyframes), report),
        keyframes@.len() == 0 ==> last_ms == 0,
        keyframes@.len() > 0 ==> last_ms == keyframes@[keyframes@.len() - 1].0,
    ensures
        report@ == "play device="@ + device@ + ": "@ + decimal(boundaries@.len())
            + " boundary point(s), "@ + decimal(keyframes@.len()) + " keyframe(s) over "@ + decimal(
            last_ms,
        ) + "ms\n  boundaries: "@ + joined(
            Seq::new(
                boundaries@.len(),
                |i: int| decimal(boundaries@[i].0 as nat) + "ms:"@ + boundaries@[i].1@,
            ),
            " -> "@,
        ) + "\n  keyframes:  "@ + joined(
            Seq::new(
                keyframes@.len(),
                |i: int| decimal(keyframes@[i].0 as nat) + "ms:"@ + keyframes@[i].1@,
            ),
            " "@,
        ),
{
    assert(labels(boundaries@) =~= Seq::new(
        boundaries@.len(),
        |i: int| decimal(boundaries@[i].0 as nat) + "ms:"@ + boundaries@[i].1@,
    ));
    assert(labels(keyframes@) =~= Seq::new(
        keyframes@.len(),
        |i: int| decimal(keyframes@[i].0 as nat) + "ms:"@ + keyframes@[i].1@,
    ));
}

/// The report for a device is the one that tells the device's id between quotes.
pub proof fn report_quotes_the_device(
    device_id: &str,
    quoted_id: &str,
    boundaries: Vec<(u32, String)>,
    keyframes: Vec<(u32, String)>,
    report: String,
    written: String,
)
    requires
        call_ensures(format_schedule_log, (device_id, &boundaries, &keyframes), report),
        quoted_id@ == debug_text(device_id@),
        call_ensures(write_schedule_report, (quoted_id, &boundaries, &keyframes), written),
    ensures
        report@ == written@,
{
}

} // verus!
