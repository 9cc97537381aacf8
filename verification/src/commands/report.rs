//! What the listing commands show: the lines, in order.

use vstd::prelude::*;
use crate::commands::driver::{Line, LineView};
use crate::models::project::{Project, ProjectView};
use crate::number::{decimal, push_decimal};
use crate::text::{join, joined, lemma_views_push, owned, views};

verus! {

/// The line that separates one project from the next.
pub open spec fn rule() -> Seq<char> {
    "---------------------------"@
}

/// One line for each topic, the topic behind a dash.
pub open spec fn topic_items(topics: Seq<Seq<char>>) -> Seq<LineView>
    decreases topics.len(),
{
    if topics.len() == 0 {
        Seq::empty()
    } else {
        topic_items(topics.drop_last()).push(LineView::Plain("  - "@ + topics.last()))
    }
}

/// The lines that show the topics of one project: its path and number, then
/// its topics one to a line, or a line that says it has none, then a rule.
pub open spec fn topics_block(project: ProjectView) -> Seq<LineView> {
    seq![
        LineView::Plain(
            "Project: "@ + project.path_with_namespace + " (ID: "@ + decimal(project.id as nat)
                + ")"@,
        ),
    ] + (if project.topics.len() == 0 {
        seq![LineView::Plain("  No topics assigned"@)]
    } else {
        topic_items(project.topics)
    }) + seq![LineView::Plain(rule())]
}

/// The blocks of the projects, in order.
pub open spec fn topics_blocks(projects: Seq<ProjectView>) -> Seq<LineView>
    decreases projects.len(),
{
    if projects.len() == 0 {
        Seq::empty()
    } else {
        topics_blocks(projects.drop_last()) + topics_block(projects.last())
    }
}

/// What the listing of topics shows: how many projects there are, a rule,
/// and the block of each project.
pub open spec fn topics_report(projects: Seq<ProjectView>) -> Seq<LineView> {
    seq![
        LineView::Plain("Topics for "@ + decimal(projects.len()) + " projects:"@),
        LineView::Plain(rule()),
    ] + topics_blocks(projects)
}

/// The lines that show one project in full, between two rules. The
/// description has a line only if there is one.
pub open spec fn detailed_block(project: ProjectView) -> Seq<LineView> {
    seq![
        LineView::Plain(rule()),
        LineView::Plain("ID: "@ + decimal(project.id as nat)),
        LineView::Plain("Name: "@ + project.name),
        LineView::Plain("Path: "@ + project.path_with_namespace),
    ] + (match project.description {
        Some(text) => seq![LineView::Plain("Description: "@ + text)],
        None => Seq::empty(),
    }) + seq![
        LineView::Plain("Visibility: "@ + project.visibility),
        LineView::Plain("Web URL: "@ + project.web_url),
    ] + (if project.topics.len() == 0 {
        seq![LineView::Plain("Topics: None"@)]
    } else {
        seq![LineView::Plain("Topics:"@)] + topic_items(project.topics)
    }) + seq![LineView::Plain(rule())]
}

/// The line that shows one project in short: its number, its path, and its
/// topics with commas between them or a phrase that says it has none.
pub open spec fn short_entry(project: ProjectView) -> LineView {
    LineView::Entry {
        id: decimal(project.id as nat),
        path: project.path_with_namespace,
        topics: if project.topics.len() == 0 {
            "No topics"@
        } else {
            joined(project.topics, ", "@)
        },
    }
}

/// The lines that show one project, in full or in short.
pub open spec fn project_block(project: ProjectView, detailed: bool) -> Seq<LineView> {
    if detailed {
        detailed_block(project)
    } else {
        seq![short_entry(project)]
    }
}

/// The blocks of the projects, in order.
pub open spec fn project_blocks(projects: Seq<ProjectView>, detailed: bool) -> Seq<LineView>
    decreases projects.len(),
{
    if projects.len() == 0 {
        Seq::empty()
    } else {
        project_blocks(projects.drop_last(), detailed) + project_block(projects.last(), detailed)
    }
}

/// What the listing of projects shows: a line that says there are none, or
/// how many there are and the block of each.
pub open spec fn projects_report(projects: Seq<ProjectView>, detailed: bool) -> Seq<LineView> {
    if projects.len() == 0 {
        seq![LineView::Plain("No projects found."@)]
    } else {
        seq![LineView::Plain("Found "@ + decimal(projects.len()) + " projects:"@)]
            + project_blocks(projects, detailed)
    }
}

fn push_plain(lines: &mut Vec<Line>, text: String)
    ensures
        views(final(lines)@) == views(old(lines)@).push(LineView::Plain(text@)),
{
    let line = Line::Plain(text);
    proof {
        lemma_views_push(lines@, line);
    }
    lines.push(line);
}

fn push_topic_items(lines: &mut Vec<Line>, topics: &Vec<String>)
    ensures
        views(final(lines)@) == views(old(lines)@) + topic_items(views(topics@)),
{
    let mut i: usize = 0;
    assert(views(topics@).take(0) == Seq::<Seq<char>>::empty());
    assert(views(lines@) == views(old(lines)@) + topic_items(views(topics@).take(0)));
    while i < topics.len()
        invariant
            i <= topics.len(),
            views(lines@) == views(old(lines)@) + topic_items(views(topics@).take(i as int)),
        decreases topics.len() - i,
    {
        let ghost next = views(topics@).take(i + 1);
        assert(next.drop_last() == views(topics@).take(i as int));
        assert(next.last() == topics@[i as int]@);
        push_plain(lines, join("  - ", topics[i].as_str()));
        assert(views(lines@) == views(old(lines)@) + topic_items(next));
        i += 1;
    }
    assert(views(topics@).take(topics.len() as int) == views(topics@));
}

fn counted(before: &str, count: usize, after: &str) -> (text: String)
    ensures
        text@ == before@ + decimal(count as nat) + after@,
{
    let mut text = owned(before);
    push_decimal(&mut text, count as u64);
    text.append(after);
    text
}

fn numbered(before: &str, number: u64) -> (text: String)
    ensures
        text@ == before@ + decimal(number as nat),
{
    let mut text = owned(before);
    push_decimal(&mut text, number);
    text
}

fn push_topics_block(lines: &mut Vec<Line>, project: &Project)
    ensures
        views(final(lines)@) == views(old(lines)@) + topics_block(project@),
{
    let mut head = join("Project: ", project.path_with_namespace.as_str());
    head.append(" (ID: ");
    push_decimal(&mut head, project.id);
    head.append(")");
    push_plain(lines, head);
    if project.topics.len() == 0 {
        assert(views(project.topics@).len() == 0);
        push_plain(lines, owned("  No topics assigned"));
    } else {
        assert(views(project.topics@).len() != 0);
        push_topic_items(lines, &project.topics);
    }
    push_plain(lines, owned("---------------------------"));
    assert(views(lines@) == views(old(lines)@) + topics_block(project@));
}

/// What the listing of topics shows for `projects`.
pub fn report_topics(projects: &Vec<Project>) -> (lines: Vec<Line>)
    ensures
        views(lines@) == topics_report(views(projects@)),
{
    let mut lines: Vec<Line> = Vec::new();
    assert(views(lines@) == Seq::<LineView>::empty());
    push_plain(&mut lines, counted("Topics for ", projects.len(), " projects:"));
    push_plain(&mut lines, owned("---------------------------"));
    let ghost head = views(lines@);
    assert(views(projects@).len() == projects.len());
    assert(head == seq![
        LineView::Plain("Topics for "@ + decimal(views(projects@).len()) + " projects:"@),
        LineView::Plain(rule()),
    ]);
    let mut i: usize = 0;
    assert(views(projects@).take(0) == Seq::<ProjectView>::empty());
    assert(views(lines@) == head + topics_blocks(views(projects@).take(0)));
    while i < projects.len()
        invariant
            i <= projects.len(),
            views(lines@) == head + topics_blocks(views(projects@).take(i as int)),
        decreases projects.len() - i,
    {
        let ghost next = views(projects@).take(i + 1);
        assert(next.drop_last() == views(projects@).take(i as int));
        assert(next.last() == projects@[i as int]@);
        push_topics_block(&mut lines, &projects[i]);
        assert(views(lines@) == head + topics_blocks(next));
        i += 1;
    }
    assert(views(projects@).take(projects.len() as int) == views(projects@));
    lines
}

/// `items`, one after the other, with `sep` between each two.
pub fn join_all(items: &Vec<String>, sep: &str) -> (text: String)
    ensures
        text@ == joined(views(items@), sep@),
{
    let mut text = String::new();
    let mut i: usize = 0;
    assert(views(items@).take(0) == Seq::<Seq<char>>::empty());
    while i < items.len()
        invariant
            i <= items.len(),
            text@ == joined(views(items@).take(i as int), sep@),
        decreases items.len() - i,
    {
        let ghost next = views(items@).take(i + 1);
        assert(next.drop_last() == views(items@).take(i as int));
        assert(next.last() == items@[i as int]@);
        if i > 0 {
            text.append(sep);
        } else {
            assert(text@ == Seq::<char>::empty());
            assert(text@ + items@[i as int]@ == items@[i as int]@);
        }
        text.append(items[i].as_str());
        i += 1;
    }
    assert(views(items@).take(items.len() as int) == views(items@));
    text
}

fn push_detailed_block(lines: &mut Vec<Line>, project: &Project)
    ensures
        views(final(lines)@) == views(old(lines)@) + detailed_block(project@),
{
    push_plain(lines, owned("---------------------------"));
    push_plain(lines, numbered("ID: ", project.id));
    push_plain(lines, join("Name: ", project.name.as_str()));
    push_plain(lines, join("Path: ", project.path_with_namespace.as_str()));
    match &project.description {
        Some(text) => {
            push_plain(lines, join("Description: ", text.as_str()));
        },
        None => {},
    }
    push_plain(lines, join("Visibility: ", project.visibility.as_str()));
    push_plain(lines, join("Web URL: ", project.web_url.as_str()));
    if project.topics.len() == 0 {
        assert(views(project.topics@).len() == 0);
        push_plain(lines, owned("Topics: None"));
    } else {
        assert(views(project.topics@).len() != 0);
        push_plain(lines, owned("Topics:"));
        push_topic_items(lines, &project.topics);
    }
    push_plain(lines, owned("---------------------------"));
    assert(views(lines@) == views(old(lines)@) + detailed_block(project@));
}

fn push_short_entry(lines: &mut Vec<Line>, project: &Project)
    ensures
        views(final(lines)@) == views(old(lines)@) + seq![short_entry(project@)],
{
    let topics = if project.topics.len() == 0 {
        assert(views(project.topics@).len() == 0);
        owned("No topics")
    } else {
        assert(views(project.topics@).len() != 0);
        join_all(&project.topics, ", ")
    };
    let line = Line::Entry {
        id: numbered("", project.id),
        path: project.path_with_namespace.clone(),
        topics,
    };
    proof {
        lemma_views_push(lines@, line);
        reveal_strlit("");
        assert(""@ + decimal(project.id as nat) == decimal(project.id as nat));
    }
    lines.push(line);
    assert(views(lines@) == views(old(lines)@) + seq![short_entry(project@)]);
}

/// What the listing of projects shows for `projects`, each in full if
/// `detailed`, else in short.
pub fn report_projects(projects: &Vec<Project>, detailed: bool) -> (lines: Vec<Line>)
    ensures
        views(lines@) == projects_report(views(projects@), detailed),
{
    let mut lines: Vec<Line> = Vec::new();
    assert(views(lines@) == Seq::<LineView>::empty());
    assert(views(projects@).len() == projects.len());
    if projects.len() == 0 {
        push_plain(&mut lines, owned("No projects found."));
        assert(views(lines@) == seq![LineView::Plain("No projects found."@)]);
        return lines;
    }
    push_plain(&mut lines, counted("Found ", projects.len(), " projects:"));
    let ghost head = views(lines@);
    assert(head == seq![
        LineView::Plain("Found "@ + decimal(views(projects@).len()) + " projects:"@),
    ]);
    let mut i: usize = 0;
    assert(views(projects@).take(0) == Seq::<ProjectView>::empty());
    assert(views(lines@) == head + project_blocks(views(projects@).take(0), detailed));
    while i < projects.len()
        invariant
            i <= projects.len(),
            views(lines@) == head + project_blocks(views(projects@).take(i as int), detailed),
        decreases projects.len() - i,
    {
        let ghost next = views(projects@).take(i + 1);
        assert(next.drop_last() == views(projects@).take(i as int));
        assert(next.last() == projects@[i as int]@);
        if detailed {
            push_detailed_block(&mut lines, &projects[i]);
        } else {
            push_short_entry(&mut lines, &projects[i]);
        }
        assert(views(lines@) == head + project_blocks(next, detailed));
        i += 1;
    }
    assert(views(projects@).take(projects.len() as int) == views(projects@));
    lines
}

} // verus!
