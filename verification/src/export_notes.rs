//! The "intelligence" part of a meeting's exported note: the insights
//! gathered live during the meeting, sorted into markdown sections.
use vstd::prelude::*;
use crate::text::{chars_of, extend_chars, extend_str, join, join_chars, string_of, views};

verus! {

/// An insight noticed during a meeting.
pub enum InsightEvent {
    ActionItem { text: String, assignee: Option<String> },
    Decision { text: String },
    RiskSignal { text: String },
    Commitment { text: String },
    QuestionSuggestion { text: String },
    TopicShift { from_topic: String, to_topic: String },
}

/// The section an insight is listed under.
#[derive(PartialEq, Eq, Structural, Clone, Copy)]
pub enum InsightSection {
    ActionItems,
    Decisions,
    RiskSignals,
    Commitments,
    Questions,
    TopicShifts,
}

pub open spec fn section_of(e: InsightEvent) -> InsightSection {
    match e {
        InsightEvent::ActionItem { .. } => InsightSection::ActionItems,
        InsightEvent::Decision { .. } => InsightSection::Decisions,
        InsightEvent::RiskSignal { .. } => InsightSection::RiskSignals,
        InsightEvent::Commitment { .. } => InsightSection::Commitments,
        InsightEvent::QuestionSuggestion { .. } => InsightSection::Questions,
        InsightEvent::TopicShift { .. } => InsightSection::TopicShifts,
    }
}

/// The bullet line of an insight.
pub open spec fn bullet(e: InsightEvent) -> Seq<char> {
    match e {
        InsightEvent::ActionItem { text, assignee } => match assignee {
            Some(a) => "- "@ + text@ + " *(assigned: "@ + a@ + ")*"@,
            None => "- "@ + text@,
        },
        InsightEvent::Decision { text } => "- "@ + text@,
        InsightEvent::RiskSignal { text } => "- ⚠️ "@ + text@,
        InsightEvent::Commitment { text } => "- 🤝 "@ + text@,
        InsightEvent::QuestionSuggestion { text } => "- ❓ "@ + text@,
        InsightEvent::TopicShift { from_topic, to_topic } => "- 🎯 "@ + from_topic@ + " → "@ + to_topic@,
    }
}

/// The bullet lines of one section, in the order the insights came.
pub open spec fn section_lines(events: Seq<InsightEvent>, s: InsightSection) -> Seq<Seq<char>>
    decreases events.len(),
{
    if events.len() == 0 {
        Seq::empty()
    } else {
        let rest = section_lines(events.drop_last(), s);
        if section_of(events.last()) == s {
            rest.push(bullet(events.last()))
        } else {
            rest
        }
    }
}

/// A section: its heading and lines, or nothing when it has no lines.
pub open spec fn section_text(title: Seq<char>, lines: Seq<Seq<char>>) -> Seq<char> {
    if lines.len() == 0 {
        Seq::empty()
    } else {
        "### "@ + title + "\n\n"@ + join(lines, "\n"@) + "\n\n"@
    }
}

/// All sections, in a fixed order.
pub open spec fn intelligence_text(events: Seq<InsightEvent>) -> Seq<char> {
    section_text("Action Items"@, section_lines(events, InsightSection::ActionItems))
        + section_text("Decisions"@, section_lines(events, InsightSection::Decisions))
        + section_text("Risk Signals"@, section_lines(events, InsightSection::RiskSignals))
        + section_text("Commitments"@, section_lines(events, InsightSection::Commitments))
        + section_text("Questions & Suggestions"@, section_lines(events, InsightSection::Questions))
        + section_text("Topic Shifts"@, section_lines(events, InsightSection::TopicShifts))
}

fn bullet_line(e: &InsightEvent) -> (r: (Vec<char>, InsightSection))
    ensures
        r.0@ == bullet(*e),
        r.1 == section_of(*e),
{
    let mut v: Vec<char> = Vec::new();
    match e {
        InsightEvent::ActionItem { text, assignee } => {
            extend_str(&mut v, "- ");
            extend_str(&mut v, text.as_str());
            match assignee {
                Some(a) => {
                    extend_str(&mut v, " *(assigned: ");
                    extend_str(&mut v, a.as_str());
                    extend_str(&mut v, ")*");
                },
                None => {},
            }
            (v, InsightSection::ActionItems)
        },
        InsightEvent::Decision { text } => {
            extend_str(&mut v, "- ");
            extend_str(&mut v, text.as_str());
            (v, InsightSection::Decisions)
        },
        InsightEvent::RiskSignal { text } => {
            extend_str(&mut v, "- ⚠️ ");
            extend_str(&mut v, text.as_str());
            (v, InsightSection::RiskSignals)
        },
        InsightEvent::Commitment { text } => {
            extend_str(&mut v, "- 🤝 ");
            extend_str(&mut v, text.as_str());
            (v, InsightSection::Commitments)
        },
        InsightEvent::QuestionSuggestion { text } => {
            extend_str(&mut v, "- ❓ ");
            extend_str(&mut v, text.as_str());
            (v, InsightSection::Questions)
        },
        InsightEvent::TopicShift { from_topic, to_topic } => {
            extend_str(&mut v, "- 🎯 ");
            extend_str(&mut v, from_topic.as_str());
            extend_str(&mut v, " → ");
            extend_str(&mut v, to_topic.as_str());
            (v, InsightSection::TopicShifts)
        },
    }
}

fn push_section(out: &mut Vec<char>, title: &str, lines: &Vec<Vec<char>>)
    ensures
        final(out)@ == old(out)@ + section_text(title@, views(lines@)),
{
    if lines.len() == 0 {
        assert(out@ =~= out@ + Seq::<char>::empty());
        return;
    }
    let ghost start = out@;
    extend_str(out, "### ");
    extend_str(out, title);
    extend_str(out, "\n\n");
    let nl = chars_of("\n");
    let body = join_chars(lines, &nl);
    extend_chars(out, &body);
    extend_str(out, "\n\n");
    assert(out@ =~= start + ("### "@ + title@ + "\n\n"@ + join(views(lines@), "\n"@) + "\n\n"@));
}

/// The insights as markdown sections (action items, decisions, risk
/// signals, commitments, questions and suggestions, topic shifts, in that
/// order, each only when it has lines); `None` when there are none.
pub fn intelligence_markdown(insights: &Vec<InsightEvent>) -> (r: Option<String>)
    ensures
        match r {
            Some(t) => t@ == intelligence_text(insights@) && t@.len() > 0,
            None => intelligence_text(insights@).len() == 0,
        },
{
    let mut actions: Vec<Vec<char>> = Vec::new();
    let mut decisions: Vec<Vec<char>> = Vec::new();
    let mut risks: Vec<Vec<char>> = Vec::new();
    let mut commitments: Vec<Vec<char>> = Vec::new();
    let mut questions: Vec<Vec<char>> = Vec::new();
    let mut shifts: Vec<Vec<char>> = Vec::new();
    let mut i: usize = 0;
    while i < insights.len()
        invariant
            i <= insights.len(),
            views(actions@) == section_lines(insights@.take(i as int), InsightSection::ActionItems),
            views(decisions@) == section_lines(insights@.take(i as int), InsightSection::Decisions),
            views(risks@) == section_lines(insights@.take(i as int), InsightSection::RiskSignals),
            views(commitments@) == section_lines(insights@.take(i as int), InsightSection::Commitments),
            views(questions@) == section_lines(insights@.take(i as int), InsightSection::Questions),
            views(shifts@) == section_lines(insights@.take(i as int), InsightSection::TopicShifts),
        decreases insights.len() - i,
    {
        let (line, section) = bullet_line(&insights[i]);
        proof {
            assert(insights@.take(i + 1).drop_last() =~= insights@.take(i as int));
            assert(insights@.take(i + 1).last() == insights@[i as int]);
        }
        let ghost lv = line@;
        match section {
            InsightSection::ActionItems => {
                let ghost b = actions@;
                actions.push(line);
                assert(views(actions@) =~= views(b).push(lv));
            },
            InsightSection::Decisions => {
                let ghost b = decisions@;
                decisions.push(line);
                assert(views(decisions@) =~= views(b).push(lv));
            },
            InsightSection::RiskSignals => {
                let ghost b = risks@;
                risks.push(line);
                assert(views(risks@) =~= views(b).push(lv));
            },
            InsightSection::Commitments => {
                let ghost b = commitments@;
                commitments.push(line);
                assert(views(commitments@) =~= views(b).push(lv));
            },
            InsightSection::Questions => {
                let ghost b = questions@;
                questions.push(line);
                assert(views(questions@) =~= views(b).push(lv));
            },
            InsightSection::TopicShifts => {
                let ghost b = shifts@;
                shifts.push(line);
                assert(views(shifts@) =~= views(b).push(lv));
            },
        }
        i += 1;
    }
    proof {
        assert(insights@.take(insights.len() as int) =~= insights@);
    }
    let mut md: Vec<char> = Vec::new();
    push_section(&mut md, "Action Items", &actions);
    push_section(&mut md, "Decisions", &decisions);
    push_section(&mut md, "Risk Signals", &risks);
    push_section(&mut md, "Commitments", &commitments);
    push_section(&mut md, "Questions & Suggestions", &questions);
    push_section(&mut md, "Topic Shifts", &shifts);
    assert(md@ =~= intelligence_text(insights@));
    if md.len() == 0 {
        None
    } else {
        Some(string_of(&md))
    }
}

/// The screenshots a note links to: the stored paths of the meeting's
/// frames, in order, skipping frames without one.
pub fn screenshot_paths(frame_paths: &Vec<Option<String>>) -> (r: Vec<String>)
    ensures
        r@ == kept_paths(frame_paths@),
{
    let mut out: Vec<String> = Vec::new();
    let mut i: usize = 0;
    while i < frame_paths.len()
        invariant
            i <= frame_paths.len(),
            out@ == kept_paths(frame_paths@.take(i as int)),
        decreases frame_paths.len() - i,
    {
        proof {
            assert(frame_paths@.take(i + 1).drop_last() =~= frame_paths@.take(i as int));
        }
        match &frame_paths[i] {
            Some(p) => out.push(p.clone()),
            None => {},
        }
        i += 1;
    }
    proof {
        assert(frame_paths@.take(frame_paths.len() as int) =~= frame_paths@);
    }
    out
}

/// The paths present, in order.
pub open spec fn kept_paths(paths: Seq<Option<String>>) -> Seq<String>
    decreases paths.len(),
{
    if paths.len() == 0 {
        Seq::empty()
    } else {
        let rest = kept_paths(paths.drop_last());
        match paths.last() {
            Some(p) => rest.push(p),
            None => rest,
        }
    }
}

} // verus!
