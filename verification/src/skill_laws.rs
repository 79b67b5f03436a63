//! What the tool `skill` finds and shows.

use vstd::prelude::*;

use crate::args::CallScopeView;
use crate::calls::exec_begin;
use crate::calls::reply_outcome;
use crate::calls::ActionView;
use crate::calls::EventView;
use crate::calls::ExecCallView;
use crate::calls::ExecutorReplyView;
use crate::calls::StepView;
use crate::exbash_laws::is_for_session;
use crate::exbash_laws::lemma_tool_names;
use crate::exbash_laws::text_in;
use crate::json::JsonView;
use crate::number::all_digits;
use crate::number::decimal;
use crate::order::lemma_in_order;
use crate::skill::dir_of;
use crate::skill::files_in;
use crate::skill::front_value;
use crate::skill::is_letter;
use crate::skill::is_separator;
use crate::skill::is_skill_file;
use crate::skill::marked;
use crate::skill::name_hits;
use crate::skill::names_file;
use crate::skill::regex_search;
use crate::skill::selected;
use crate::skill::side_files;
use crate::skill::skill_after;
use crate::skill::skill_list_text;
use crate::skill::skill_of;
use crate::skill::skill_order;
use crate::skill::skill_read_text;
use crate::skill::target_in;
use crate::skill::unquoted;
use crate::skill::without_number;
use crate::skill::SkillInfoView;
use crate::skill_tool::chosen_step;
use crate::skill_tool::found_files;
use crate::skill_tool::glob_arguments;
use crate::skill_tool::read_arguments;
use crate::skill_tool::read_step;
use crate::skill_tool::skill_begin;
use crate::skill_tool::skill_in;
use crate::skill_tool::skill_next;
use crate::skill_tool::SkillCallView;
use crate::skill_tool::SkillStepView;
use crate::text::first_at;
use crate::text::has_prefix;
use crate::text::has_text;
use crate::text::is_digit;
use crate::text::is_space;
use crate::text::lines_of;
use crate::text::occurs_at;
use crate::text::split_first;
use crate::text::trim_start_matches_of;
use crate::text::trim_start_of;
use crate::text::trimmed;
use crate::tool_call::as_skill;
use crate::traces::action_at;
use crate::traces::call_at;
use crate::traces::law_local_executor_is_asked;
use crate::traces::lemma_routing_names;
use crate::traces::CallView;

verus! {

// ---------------------------------------------------------------------------
// Where to look
// ---------------------------------------------------------------------------

/// The first place of `p` is where it is found and nothing before is one.
proof fn lemma_found_at(s: Seq<char>, p: Seq<char>, from: int, at: int)
    requires
        0 <= from <= at,
        occurs_at(s, p, at),
        forall|i: int| from <= i < at ==> !#[trigger] occurs_at(s, p, i),
    ensures
        first_at(s, p, from) == Some(at),
    decreases at - from,
{
    if from < at {
        lemma_found_at(s, p, from + 1, at);
    }
}

proof fn lemma_split_at_char(a: Seq<char>, p: Seq<char>, c: char, b: Seq<char>)
    requires
        p == seq![c],
        !a.contains(c),
    ensures
        split_first(a + p + b, p) == Some((a, b)),
{
    let s = a + p + b;
    let n = a.len() as int;
    assert(s.subrange(n, n + 1) =~= p);
    assert forall|i: int| 0 <= i < n implies !#[trigger] occurs_at(s, p, i) by {
        assert(s[i] == a[i]);
        if occurs_at(s, p, i) {
            assert(s.subrange(i, i + 1)[0] == c);
            assert(a.contains(a[i]));
        }
    }
    lemma_found_at(s, p, 0, n);
    assert(s.take(n) =~= a);
    assert(s.skip(n + 1) =~= b);
}

/// A path such as `box:/skills` means the path behind the colon on the executor before it; a
/// single letter before the colon is a drive, and a path without a colon is a local one.
pub proof fn law_skill_paths_name_executors(executor: Seq<char>, rest: Seq<char>)
    requires
        !executor.contains(':'),
    ensures
        executor.len() >= 2 && rest.len() > 0 ==> target_in(executor + ":"@ + rest).executor
            == executor && target_in(executor + ":"@ + rest).path == rest,
        executor.len() == 1 && is_letter(executor[0]) ==> target_in(
            executor + ":"@ + rest,
        ).executor == "local"@ && target_in(executor + ":"@ + rest).path == executor + ":"@ + rest,
        target_in(executor).executor == "local"@ && target_in(executor).path == executor,
{
    reveal_strlit(":");
    assert(":"@ =~= seq![':']);
    lemma_split_at_char(executor, ":"@, ':', rest);
    assert(split_first(executor, ":"@) is None) by {
        crate::text::lemma_first_at(executor, ":"@, 0);
        if let Some(i) = first_at(executor, ":"@, 0) {
            assert(executor.subrange(i, i + 1)[0] == ':');
            assert(executor.contains(executor[i]));
        }
    }
}

// ---------------------------------------------------------------------------
// Skills
// ---------------------------------------------------------------------------

/// A piece of text that stands on one line, neither white space nor a quotation mark around it.
pub open spec fn is_plain_line(s: Seq<char>) -> bool {
    &&& s.len() > 0
    &&& !s.contains('\n')
    &&& !is_space(s[0]) && !is_space(s.last())
    &&& s[0] != '"' && s[0] != '\''
}

/// The document of a skill: a name and a description between two lines of dashes, and the
/// content behind them.
pub open spec fn document(name: Seq<char>, description: Seq<char>, content: Seq<char>) -> Seq<char> {
    "---\nname: "@ + name + "\ndescription: "@ + description + "\n---\n"@ + content
}

/// A document is read as it is written: its name, its description and its content are those of
/// the skill, and its place is where the document stands.
pub proof fn law_documents_are_read(
    name: Seq<char>,
    description: Seq<char>,
    content: Seq<char>,
    location: Seq<char>,
)
    requires
        is_plain_line(name),
        is_plain_line(description),
        content.len() > 0 && content[0] != '-' && content[0] != '\r' && content[0] != '\n',
    ensures
        skill_of(document(name, description, content), location) == Some(
            SkillInfoView { name, description, location, content: trimmed(content) },
        ),
{
    let text = document(name, description, content);
    reveal_strlit("---\nname: ");
    reveal_strlit("---");
    reveal_strlit("\ndescription: ");
    reveal_strlit("\n---\n");
    reveal_strlit("\n---");
    reveal_strlit("name: ");
    reveal_strlit("description: ");
    reveal_strlit("\r\n");
    reveal_strlit("-\r\n");
    assert("---\nname: "@ =~= seq!['-', '-', '-', '\n', 'n', 'a', 'm', 'e', ':', ' ']);
    assert("---"@ =~= seq!['-', '-', '-']);
    assert("\n---\n"@ =~= seq!['\n', '-', '-', '-', '\n']);
    assert("\n---"@ =~= seq!['\n', '-', '-', '-']);
    assert("name: "@ =~= seq!['n', 'a', 'm', 'e', ':', ' ']);
    assert("\r\n"@ =~= seq!['\r', '\n']);
    assert("-\r\n"@ =~= seq!['-', '\r', '\n']);
    let d = "\ndescription: "@;
    assert(d.len() == 14 && d[0] == '\n' && d[1] == 'd');
    let front = "name: "@ + name + d + description;
    let rest = front + "\n---"@ + ("\n"@ + content);
    assert("\n"@ =~= seq!['\n']) by {
        reveal_strlit("\n");
    }
    assert(text =~= seq!['-', '-', '-', '\n'] + rest);
    assert(!is_space('-'));
    assert(trim_start_of(text) == text);
    assert(text.subrange(0, 3) =~= "---"@);
    let after = text.skip(3);
    assert(after =~= seq!['\n'] + rest);
    assert("\r\n"@[1] == '\n');
    assert("\r\n"@.contains('\n'));
    assert(after.drop_first() =~= rest);
    assert(rest[0] == 'n');
    assert(!"\r\n"@.contains('n'));
    assert(trim_start_matches_of(rest, "\r\n"@) == rest);
    assert(trim_start_matches_of(after, "\r\n"@) == rest);
    lemma_front_ends(name, description, content);
    assert(split_first(rest, "\n---"@) == Some((front, "\n"@ + content)));
    lemma_front_lines(name, description);
    let l = lines_of(front);
    lemma_front_values(name, description, l);
    let tail = "\n"@ + content;
    assert("-\r\n"@[2] == '\n');
    assert("-\r\n"@.contains('\n'));
    assert(tail.drop_first() =~= content);
    assert(!"-\r\n"@.contains(content[0]));
    assert(trim_start_matches_of(content, "-\r\n"@) == content);
    assert(trim_start_matches_of(tail, "-\r\n"@) == content);
    assert(trimmed(name) == name);
}

proof fn lemma_front_ends(name: Seq<char>, description: Seq<char>, content: Seq<char>)
    requires
        is_plain_line(name),
        is_plain_line(description),
    ensures
        ({
            let front = "name: "@ + name + "\ndescription: "@ + description;
            split_first(front + "\n---"@ + ("\n"@ + content), "\n---"@) == Some(
                (front, "\n"@ + content),
            )
        }),
{
    reveal_strlit("\n---");
    reveal_strlit("name: ");
    reveal_strlit("\ndescription: ");
    let p = "\n---"@;
    assert(p.len() == 4 && p[0] == '\n' && p[1] == '-');
    let d = "\ndescription: "@;
    assert(d.len() == 14 && d[0] == '\n' && d[1] == 'd');
    let front = "name: "@ + name + d + description;
    let s = front + p + ("\n"@ + content);
    let n = front.len() as int;
    assert(s.subrange(n, n + 4) =~= p);
    assert("name: "@ =~= seq!['n', 'a', 'm', 'e', ':', ' ']);
    assert forall|i: int| 0 <= i < n implies !#[trigger] occurs_at(s, p, i) by {
        if occurs_at(s, p, i) {
            assert(s.subrange(i, i + 4)[0] == s[i]);
            assert(s.subrange(i, i + 4)[1] == s[i + 1]);
            assert(s[i] == front[i]);
            if i < 6 {
                assert(front[i] == "name: "@[i]);
            } else if i < 6 + name.len() {
                assert(front[i] == name[i - 6]);
                assert(name.contains(name[i - 6]));
            } else if i < 6 + name.len() + 14 {
                let j = i - 6 - name.len();
                assert(front[i] == d[j]);
                if j == 0 {
                    assert(s[i + 1] == d[1]);
                } else {
                    assert(d[j] != '\n') by {
                        assert(d =~= seq![
                            '\n',
                            'd',
                            'e',
                            's',
                            'c',
                            'r',
                            'i',
                            'p',
                            't',
                            'i',
                            'o',
                            'n',
                            ':',
                            ' ',
                        ]);
                    }
                }
            } else {
                let j = i - 20 - name.len();
                assert(front[i] == description[j]);
                assert(description.contains(description[j]));
            }
        }
    }
    lemma_found_at(s, p, 0, n);
    assert(s.take(n) =~= front);
    assert(s.skip(n + 4) =~= "\n"@ + content);
}

proof fn lemma_front_lines(name: Seq<char>, description: Seq<char>)
    requires
        is_plain_line(name),
        is_plain_line(description),
    ensures
        lines_of("name: "@ + name + "\ndescription: "@ + description) == seq![
            "name: "@ + name,
            "description: "@ + description,
        ],
{
    reveal_strlit("name: ");
    reveal_strlit("description: ");
    reveal_strlit("\ndescription: ");
    let d = "description: "@;
    assert(d =~= seq!['d', 'e', 's', 'c', 'r', 'i', 'p', 't', 'i', 'o', 'n', ':', ' ']);
    assert("\ndescription: "@ =~= seq!['\n'] + d);
    assert("name: "@ =~= seq!['n', 'a', 'm', 'e', ':', ' ']);
    let a = "name: "@ + name;
    let b = d + description;
    let s = "name: "@ + name + "\ndescription: "@ + description;
    assert(s =~= a + seq!['\n'] + b);
    assert(!a.contains('\n')) by {
        if a.contains('\n') {
            let i = choose|i: int| 0 <= i < a.len() && a[i] == '\n';
            if i < 6 {
                assert(a[i] == "name: "@[i]);
            } else {
                assert(name.contains(name[i - 6]));
            }
        }
    }
    assert(!b.contains('\n')) by {
        if b.contains('\n') {
            let i = choose|i: int| 0 <= i < b.len() && b[i] == '\n';
            if i < 13 {
                assert(b[i] == d[i]);
            } else {
                assert(description.contains(description[i - 13]));
            }
        }
    }
    lemma_split_at_char(a, seq!['\n'], '\n', b);
    let n = a.len() as int;
    assert(s.skip(n + 1) =~= b);
    assert(s.take(n) =~= a);
    assert(first_at(s, seq!['\n'], 0) == Some(n)) by {
        crate::text::lemma_first_at(s, seq!['\n'], 0);
        let i = first_at(s, seq!['\n'], 0)->0;
        assert(s.take(i) =~= a);
        assert(s.take(i).len() == i);
    }
    assert(a.last() == name.last());
    assert(is_space('\r'));
    assert(crate::text::strip_cr(a) == a);
    assert(first_at(b, seq!['\n'], 0) is None) by {
        crate::text::lemma_first_at(b, seq!['\n'], 0);
        if let Some(i) = first_at(b, seq!['\n'], 0) {
            assert(b.subrange(i, i + 1)[0] == '\n');
            assert(b.contains(b[i]));
        }
    }
    assert(lines_of(b) == seq![b]);
    assert(lines_of(s) == seq![a] + lines_of(b));
    assert(seq![a] + seq![b] =~= seq![a, b]);
}

proof fn lemma_front_values(name: Seq<char>, description: Seq<char>, l: Seq<Seq<char>>)
    requires
        is_plain_line(name),
        is_plain_line(description),
        l == seq!["name: "@ + name, "description: "@ + description],
    ensures
        front_value(l, "name"@) == Some(name),
        front_value(l, "description"@) == Some(description),
{
    reveal_strlit("name");
    reveal_strlit("description");
    reveal_strlit("name: ");
    reveal_strlit("description: ");
    reveal_strlit(":");
    reveal_strlit(" ");
    assert(":"@ =~= seq![':']);
    let n = "name"@;
    let d = "description"@;
    assert(n =~= seq!['n', 'a', 'm', 'e']);
    assert(d =~= seq!['d', 'e', 's', 'c', 'r', 'i', 'p', 't', 'i', 'o', 'n']);
    assert("name: "@ =~= n + ":"@ + seq![' ']);
    assert("description: "@ =~= d + ":"@ + seq![' ']);
    assert("name: "@ + name =~= n + ":"@ + (seq![' '] + name));
    assert("description: "@ + description =~= d + ":"@ + (seq![' '] + description));
    assert(!n.contains(':') && !d.contains(':'));
    lemma_split_at_char(n, ":"@, ':', seq![' '] + name);
    lemma_split_at_char(d, ":"@, ':', seq![' '] + description);
    assert(trimmed(n) == n && trimmed(d) == d);
    assert(n.len() == 4 && d.len() == 11);
    lemma_spaced(name);
    lemma_spaced(description);
    assert(l.drop_last() =~= seq![l[0]]);
    assert(l.drop_last().last() == l[0]);
    reveal_with_fuel(front_value, 3);
}

proof fn lemma_spaced(s: Seq<char>)
    requires
        is_plain_line(s),
    ensures
        unquoted(seq![' '] + s) == s,
        trimmed(s) == s,
{
    let t = seq![' '] + s;
    assert(t.drop_first() =~= s);
    assert(is_space(' '));
    assert(trim_start_of(s) == s);
    assert(trim_start_of(t) == s);
}

/// The skills that are chosen are those that were found and whose names match, all of them and
/// no others, ordered by their names and then by their places.
pub proof fn law_matching_skills_are_chosen(
    found: Seq<SkillInfoView>,
    pattern: Seq<char>,
    skill: SkillInfoView,
)
    ensures
        selected(found, pattern).contains(skill) <==> found.contains(skill) && regex_search(
            pattern,
            skill.name,
        ) == Ok::<bool, Seq<char>>(true),
        forall|i: int, j: int|
            0 <= i < j < selected(found, pattern).len() ==> !skill_after(
                #[trigger] selected(found, pattern)[i],
                #[trigger] selected(found, pattern)[j],
            ),
{
    let hits = name_hits(found, pattern);
    let some = marked(found, hits);
    lemma_marked(found, hits, pattern, skill);
    assert(crate::order::is_weak_order(skill_order())) by {
        lemma_skill_order();
    }
    lemma_in_order(some, skill_order());
    let all = selected(found, pattern);
    assert(all.to_multiset() == some.to_multiset());
    some.to_multiset_ensures();
    all.to_multiset_ensures();
    assert(all.contains(skill) <==> all.to_multiset().count(skill) > 0);
    assert(some.contains(skill) <==> some.to_multiset().count(skill) > 0);
    assert forall|i: int, j: int| 0 <= i < j < all.len() implies !skill_after(
        #[trigger] all[i],
        #[trigger] all[j],
    ) by {
        assert(!skill_order()(all[i], all[j]));
    }
}

proof fn lemma_skill_order()
    ensures
        crate::order::is_weak_order(skill_order()),
{
    let after = skill_order();
    assert forall|a: SkillInfoView| !#[trigger] after(a, a) by {
        crate::order::lemma_text_lt_irreflexive(a.name);
        crate::order::lemma_text_lt_irreflexive(a.location);
    }
    assert forall|a: SkillInfoView, b: SkillInfoView| #[trigger] after(a, b) implies !after(
        b,
        a,
    ) by {
        if after(b, a) {
            lemma_no_cycle(a.name, b.name);
            lemma_no_cycle(a.location, b.location);
            crate::order::lemma_text_lt_irreflexive(a.name);
            crate::order::lemma_text_lt_irreflexive(b.name);
        }
    }
    assert forall|a: SkillInfoView, b: SkillInfoView, c: SkillInfoView|
        !#[trigger] after(a, b) && !#[trigger] after(b, c) implies !after(a, c) by {
        crate::order::lemma_text_lt_total(a.name, b.name);
        crate::order::lemma_text_lt_total(b.name, c.name);
        crate::order::lemma_text_lt_total(a.location, b.location);
        crate::order::lemma_text_lt_total(b.location, c.location);
        crate::order::lemma_text_lt_total(a.location, c.location);
        lemma_no_cycle(a.name, c.name);
        lemma_no_cycle(a.location, c.location);
        crate::order::lemma_text_lt_irreflexive(a.name);
        crate::order::lemma_text_lt_irreflexive(a.location);
        if text_lt_chain(a.name, b.name, c.name) {
            crate::order::lemma_text_lt_transitive(a.name, b.name, c.name);
        }
        if text_lt_chain(a.location, b.location, c.location) {
            crate::order::lemma_text_lt_transitive(a.location, b.location, c.location);
        }
    }
}

spec fn text_lt_chain(a: Seq<char>, b: Seq<char>, c: Seq<char>) -> bool {
    crate::order::text_lt(a, b) && crate::order::text_lt(b, c)
}

proof fn lemma_no_cycle(a: Seq<char>, b: Seq<char>)
    ensures
        !(crate::order::text_lt(a, b) && crate::order::text_lt(b, a)),
{
    if crate::order::text_lt(a, b) && crate::order::text_lt(b, a) {
        crate::order::lemma_text_lt_transitive(a, b, a);
        crate::order::lemma_text_lt_irreflexive(a);
    }
}

proof fn lemma_marked(
    found: Seq<SkillInfoView>,
    hits: Seq<bool>,
    pattern: Seq<char>,
    skill: SkillInfoView,
)
    requires
        hits.len() >= found.len(),
        forall|i: int|
            0 <= i < found.len() ==> #[trigger] hits[i] == (regex_search(pattern, found[i].name)
                == Ok::<bool, Seq<char>>(true)),
    ensures
        marked(found, hits).contains(skill) <==> found.contains(skill) && regex_search(
            pattern,
            skill.name,
        ) == Ok::<bool, Seq<char>>(true),
    decreases found.len(),
{
    if found.len() > 0 {
        let before = found.drop_last();
        lemma_marked(before, hits, pattern, skill);
        let head = marked(before, hits);
        let all = marked(found, hits);
        let n = found.len() - 1;
        assert(found.contains(skill) <==> before.contains(skill) || found[n] == skill) by {
            if before.contains(skill) {
                let i = choose|i: int| 0 <= i < before.len() && before[i] == skill;
                assert(found[i] == skill);
            }
            if found.contains(skill) && found[n] != skill {
                let i = choose|i: int| 0 <= i < found.len() && found[i] == skill;
                assert(before[i] == skill);
            }
        }
        if hits[n] {
            assert(all == head.push(found.last()));
            assert(all.contains(skill) <==> head.contains(skill) || found[n] == skill) by {
                if head.contains(skill) {
                    let i = choose|i: int| 0 <= i < head.len() && head[i] == skill;
                    assert(all[i] == skill);
                }
                if found[n] == skill {
                    assert(all[all.len() - 1] == skill);
                }
            }
        }
    }
}

// ---------------------------------------------------------------------------
// The tool
// ---------------------------------------------------------------------------

/// The call looks for skills on the local executor.
pub open spec fn looks_for_skills(
    call: CallView,
    session_id: Seq<char>,
    workdir: Seq<char>,
    path: Seq<char>,
) -> bool {
    &&& call.name == "skill"@
    &&& is_for_session(call, session_id)
    &&& trimmed(workdir).len() > 0
    &&& text_in(call.arguments, "path"@) == Some(path)
    &&& !path.contains(':')
}

/// The steps of a call of `skill`.
spec fn skill_at(
    scope: CallScopeView,
    arguments: JsonView,
    events: Seq<(EventView, i64)>,
    k: int,
) -> SkillStepView
    decreases k,
{
    if k <= 0 {
        skill_begin(scope, arguments)
    } else {
        match skill_at(scope, arguments, events, k - 1) {
            StepView::Ask(stage, _) => skill_next(stage, scope, events[k - 1].0),
            StepView::Done(answer) => StepView::Done(answer),
        }
    }
}

proof fn lemma_goes_on_as_skill(
    call: CallView,
    session_id: Seq<char>,
    workdir: Seq<char>,
    events: Seq<(EventView, i64)>,
    k: int,
)
    requires
        1 <= k <= events.len(),
        call.name == "skill"@,
        is_for_session(call, session_id),
        trimmed(workdir).len() > 0,
        events[0].0 == EventView::Text(Ok(workdir)),
    ensures
        ({
            let scope = CallScopeView { session_id, workdir };
            call_at(call, events, k) == as_skill(
                scope,
                skill_at(scope, call.arguments, events.skip(1), k - 1),
            )
        }),
    decreases k,
{
    lemma_tool_names();
    if k == 1 {
        reveal_with_fuel(call_at, 2);
    } else {
        lemma_goes_on_as_skill(call, session_id, workdir, events, k - 1);
        assert(events.skip(1)[k - 2] == events[k - 1]);
    }
}

/// The regular expression that the names of the skills are to match: any name where none is
/// given.
pub open spec fn name_pattern(arguments: JsonView) -> Seq<char> {
    match text_in(arguments, "name"@) {
        Some(name) => name,
        None => ".*"@,
    }
}

/// Reading names a skill, and the names are to match a regular expression that is one.
pub open spec fn asks_well(arguments: JsonView) -> bool {
    &&& text_in(arguments, "mode"@) == Some("read"@) ==> text_in(arguments, "name"@) is Some
    &&& regex_search(name_pattern(arguments), ""@) is Ok
}

/// The local executor is asked to read a file.
pub open spec fn asks_to_read(action: ActionView, file: Seq<char>) -> bool {
    &&& action is Execute
    &&& action->Execute_executor == Some("local"@)
    &&& action->Execute_method == "read"@
    &&& action->Execute_params.field("filePath"@) == Some(JsonView::Str(file))
    &&& action->Execute_params.field("mode"@) == Some(JsonView::Str("text"@))
    &&& action->Execute_params.field("limit"@) == Some(JsonView::Int(20000))
}

/// The local executor is asked for the files that match a pattern below a path.
pub open spec fn asks_for_files(action: ActionView, path: Seq<char>, pattern: Seq<char>) -> bool {
    &&& action is Execute
    &&& action->Execute_executor == Some("local"@)
    &&& action->Execute_method == "glob"@
    &&& action->Execute_params.field("path"@) == Some(JsonView::Str(path))
    &&& action->Execute_params.field("pattern"@) == Some(JsonView::Str(pattern))
}

proof fn lemma_reads(scope: CallScopeView, file: Seq<char>)
    ensures
        asks_to_read(exec_begin(scope, "read"@, read_arguments("local"@, file)).1, file),
        exec_begin(scope, "read"@, read_arguments("local"@, file)).0 == (ExecCallView::Run {
            executor: "local"@,
        }),
{
    lemma_look_names();
    lemma_routing_names();
    reveal_strlit("local");
    assert("local"@.len() == 5);
    let a = read_arguments("local"@, file);
    law_local_executor_is_asked(scope, "read"@, a);
    let action = exec_begin(scope, "read"@, a).1;
    assert(action->Execute_params.field("filePath"@) == a.field("filePath"@));
    assert(action->Execute_params.field("mode"@) == a.field("mode"@));
    assert(action->Execute_params.field("limit"@) == a.field("limit"@));
}

proof fn lemma_looks(scope: CallScopeView, path: Seq<char>, pattern: Seq<char>, timeout: int)
    ensures
        ({
            let begun = exec_begin(
                scope,
                "glob"@,
                glob_arguments("local"@, path, pattern, timeout),
            );
            &&& asks_for_files(begun.1, path, pattern)
            &&& begun.0 == (ExecCallView::Run { executor: "local"@ })
        }),
{
    lemma_look_names();
    lemma_routing_names();
    reveal_strlit("local");
    assert("local"@.len() == 5);
    let a = glob_arguments("local"@, path, pattern, timeout);
    law_local_executor_is_asked(scope, "glob"@, a);
    let action = exec_begin(scope, "glob"@, a).1;
    assert(action->Execute_params.field("path"@) == a.field("path"@));
    assert(action->Execute_params.field("pattern"@) == a.field("pattern"@));
}

/// Looking for skills asks the executor for the documents below the path, or, where the path is
/// itself a document, reads it. A regular expression that is none is refused, and so is
/// reading without one.
pub proof fn law_skills_are_looked_for(
    call: CallView,
    session_id: Seq<char>,
    workdir: Seq<char>,
    path: Seq<char>,
    events: Seq<(EventView, i64)>,
)
    requires
        looks_for_skills(call, session_id, workdir, path),
        events.len() >= 1,
        events[0].0 == EventView::Text(Ok(workdir)),
    ensures
        asks_well(call.arguments) <==> action_at(call, events, 1) is Some,
        !asks_well(call.arguments) ==> (call_at(call, events, 1) matches StepView::Done(Err(e))
            && e.code == -32602),
        asks_well(call.arguments) && is_skill_file(path) ==> asks_to_read(
            action_at(call, events, 1)->0,
            path,
        ),
        asks_well(call.arguments) && !is_skill_file(path) ==> asks_for_files(
            action_at(call, events, 1)->0,
            path,
            "**/SKILL.md"@,
        ),
{
    let scope = CallScopeView { session_id, workdir };
    lemma_goes_on_as_skill(call, session_id, workdir, events, 1);
    law_skill_paths_name_executors(path, Seq::empty());
    lemma_reads(scope, path);
    lemma_looks(scope, path, "**/SKILL.md"@, 30000);
    reveal_strlit("list");
    reveal_strlit("read");
    assert("list"@[0] == 'l' && "read"@[0] == 'r');
    assert(seq![path][0] == path);
}

/// The skills in the first `n` documents: what each reply describes, in turn.
pub open spec fn skills_in(files: Seq<Seq<char>>, replies: Seq<ExecutorReplyView>, n: int) -> Seq<
    SkillInfoView,
>
    decreases n,
{
    if n <= 0 {
        Seq::empty()
    } else {
        match skill_in(reply_outcome(replies[n - 1], "local"@)->Ok_0, files[n - 1]) {
            Some(skill) => skills_in(files, replies, n - 1).push(skill),
            None => skills_in(files, replies, n - 1),
        }
    }
}

proof fn lemma_reads_in_turn(
    scope: CallScopeView,
    arguments: JsonView,
    path: Seq<char>,
    files: Seq<Seq<char>>,
    reply: ExecutorReplyView,
    replies: Seq<ExecutorReplyView>,
    events: Seq<(EventView, i64)>,
    k: int,
)
    requires
        text_in(arguments, "path"@) == Some(path),
        !path.contains(':'),
        asks_well(arguments),
        !is_skill_file(path),
        reply_outcome(reply, "local"@) matches Ok(v) && files == found_files(v),
        events.len() >= 1 + replies.len(),
        replies.len() == files.len(),
        events[0].0 == EventView::Reply(reply),
        forall|i: int|
            0 <= i < replies.len() ==> #[trigger] events[i + 1].0 == EventView::Reply(replies[i]),
        forall|i: int|
            0 <= i < replies.len() ==> reply_outcome(#[trigger] replies[i], "local"@) is Ok,
        0 <= k <= files.len(),
    ensures
        skill_at(scope, arguments, events, k + 1) == read_step(
            scope,
            SkillCallView {
                mode: match text_in(arguments, "mode"@) {
                    Some(m) => m,
                    None => "list"@,
                },
                target: target_in(path),
                pattern: name_pattern(arguments),
            },
            files.skip(k),
            skills_in(files, replies, k),
        ),
    decreases k,
{
    law_skill_paths_name_executors(path, Seq::empty());
    reveal_strlit("list");
    reveal_strlit("read");
    assert("list"@[0] == 'l' && "read"@[0] == 'r');
    let begun = skill_at(scope, arguments, events, 0);
    assert(begun == skill_begin(scope, arguments));
    lemma_looks(scope, path, "**/SKILL.md"@, 30000);
    if k == 0 {
        assert(files.skip(0) =~= files);
        assert(skill_at(scope, arguments, events, 1) == skill_next(
            begun->Ask_0,
            scope,
            events[0].0,
        ));
    } else {
        lemma_reads_in_turn(scope, arguments, path, files, reply, replies, events, k - 1);
        let before = skill_at(scope, arguments, events, k);
        let file = files[k - 1];
        lemma_reads(scope, file);
        assert(files.skip(k - 1)[0] == file);
        assert(files.skip(k - 1).drop_first() =~= files.skip(k));
        assert(events[k - 1 + 1].0 == EventView::Reply(replies[k - 1]));
        assert(reply_outcome(replies[k - 1], "local"@) is Ok);
        assert(skill_at(scope, arguments, events, k + 1) == skill_next(
            before->Ask_0,
            scope,
            events[k].0,
        ));
    }
}

/// Every document that is found is read, one by one and in the order in which they are found;
/// the list then shows the skills in them whose names match, and nothing else.
pub proof fn law_documents_are_read_in_turn(
    call: CallView,
    session_id: Seq<char>,
    workdir: Seq<char>,
    path: Seq<char>,
    files: Seq<Seq<char>>,
    reply: ExecutorReplyView,
    replies: Seq<ExecutorReplyView>,
    events: Seq<(EventView, i64)>,
    k: int,
)
    requires
        looks_for_skills(call, session_id, workdir, path),
        asks_well(call.arguments),
        !is_skill_file(path),
        reply_outcome(reply, "local"@) matches Ok(v) && files == found_files(v),
        events.len() >= 2 + replies.len(),
        replies.len() == files.len(),
        events[0].0 == EventView::Text(Ok(workdir)),
        events[1].0 == EventView::Reply(reply),
        forall|i: int|
            0 <= i < replies.len() ==> #[trigger] events[i + 2].0 == EventView::Reply(replies[i]),
        forall|i: int|
            0 <= i < replies.len() ==> reply_outcome(#[trigger] replies[i], "local"@) is Ok,
        0 <= k <= files.len(),
    ensures
        k < files.len() ==> (action_at(call, events, k + 2) matches Some(action) && asks_to_read(
            action,
            files[k],
        )),
        k == files.len() && (text_in(call.arguments, "mode"@) is None || text_in(
            call.arguments,
            "mode"@,
        ) == Some("list"@)) ==> (call_at(call, events, k + 2) matches StepView::Done(Ok(r))
            && r.content[0].text == skill_list_text(
            selected(skills_in(files, replies, k), name_pattern(call.arguments)),
        )),
{
    let scope = CallScopeView { session_id, workdir };
    lemma_goes_on_as_skill(call, session_id, workdir, events, k + 2);
    let own = events.skip(1);
    assert(own[0] == events[1]);
    assert forall|i: int| 0 <= i < replies.len() implies #[trigger] own[i + 1].0
        == EventView::Reply(replies[i]) by {
        assert(own[i + 1] == events[i + 2]);
    }
    lemma_reads_in_turn(scope, call.arguments, path, files, reply, replies, own, k);
    law_skill_paths_name_executors(path, Seq::empty());
    if k < files.len() {
        lemma_reads(scope, files[k]);
        assert(files.skip(k)[0] == files[k]);
    }
}

/// The files that are found are the lines of the output that name one, in their order.
pub proof fn law_found_files_are_lines(lines: Seq<Seq<char>>, i: int)
    requires
        0 <= i < files_in(lines).len(),
    ensures
        exists|j: int| 0 <= j < lines.len() && #[trigger] trimmed(lines[j]) == files_in(lines)[i],
        names_file(files_in(lines)[i]),
    decreases lines.len(),
{
    if lines.len() > 0 {
        let fewer = lines.drop_last();
        if i < files_in(fewer).len() {
            law_found_files_are_lines(fewer, i);
            let j = choose|j: int|
                0 <= j < fewer.len() && #[trigger] trimmed(fewer[j]) == files_in(fewer)[i];
            assert(trimmed(lines[j]) == files_in(lines)[i]);
        } else {
            assert(trimmed(lines[lines.len() - 1]) == files_in(lines)[i]);
        }
    }
}

proof fn lemma_look_names()
    ensures
        "executor"@ != "path"@,
        "executor"@ != "pattern"@,
        "executor"@ != "timeout"@,
        "executor"@ != "filePath"@,
        "executor"@ != "mode"@,
        "executor"@ != "limit"@,
        "executor"@ != "targetExecutor"@,
        "executor"@ != "ExecutorSessionID"@,
        "executor"@ != "name"@,
        "path"@ != "pattern"@,
        "path"@ != "timeout"@,
        "path"@ != "filePath"@,
        "path"@ != "mode"@,
        "path"@ != "limit"@,
        "path"@ != "targetExecutor"@,
        "path"@ != "ExecutorSessionID"@,
        "path"@ != "name"@,
        "pattern"@ != "timeout"@,
        "pattern"@ != "filePath"@,
        "pattern"@ != "mode"@,
        "pattern"@ != "limit"@,
        "pattern"@ != "targetExecutor"@,
        "pattern"@ != "ExecutorSessionID"@,
        "pattern"@ != "name"@,
        "timeout"@ != "filePath"@,
        "timeout"@ != "mode"@,
        "timeout"@ != "limit"@,
        "timeout"@ != "targetExecutor"@,
        "timeout"@ != "ExecutorSessionID"@,
        "timeout"@ != "name"@,
        "filePath"@ != "mode"@,
        "filePath"@ != "limit"@,
        "filePath"@ != "targetExecutor"@,
        "filePath"@ != "ExecutorSessionID"@,
        "filePath"@ != "name"@,
        "mode"@ != "limit"@,
        "mode"@ != "targetExecutor"@,
        "mode"@ != "ExecutorSessionID"@,
        "mode"@ != "name"@,
        "limit"@ != "targetExecutor"@,
        "limit"@ != "ExecutorSessionID"@,
        "limit"@ != "name"@,
        "targetExecutor"@ != "ExecutorSessionID"@,
        "targetExecutor"@ != "name"@,
        "ExecutorSessionID"@ != "name"@,
{
    reveal_strlit("executor");
    reveal_strlit("path");
    reveal_strlit("pattern");
    reveal_strlit("timeout");
    reveal_strlit("filePath");
    reveal_strlit("mode");
    reveal_strlit("limit");
    reveal_strlit("targetExecutor");
    reveal_strlit("ExecutorSessionID");
    reveal_strlit("name");
    assert("executor"@.len() == 8);
    assert("path"@.len() == 4);
    assert("pattern"@.len() == 7);
    assert("timeout"@.len() == 7);
    assert("filePath"@.len() == 8);
    assert("mode"@.len() == 4);
    assert("limit"@.len() == 5);
    assert("targetExecutor"@.len() == 14);
    assert("ExecutorSessionID"@.len() == 17);
    assert("name"@.len() == 4);
    assert("executor"@[0] == 'e' && "filePath"@[0] == 'f');
    assert("path"@[0] == 'p' && "mode"@[0] == 'm');
    assert("path"@[0] == 'p' && "name"@[0] == 'n');
    assert("pattern"@[0] == 'p' && "timeout"@[0] == 't');
    assert("mode"@[0] == 'm' && "name"@[0] == 'n');
}

/// A list of skills names each of them with its description and its place, in their order; what
/// reading one shows is its name, its content and the files beside it. Reading needs exactly
/// one skill.
pub proof fn law_skills_are_shown(
    scope: CallScopeView,
    sk: SkillCallView,
    skills: Seq<SkillInfoView>,
)
    ensures
        sk.mode == "list"@ && skills.len() == 1 ==> (chosen_step(scope, sk, skills) matches StepView::Done(
            Ok(r),
        ) && r.content.len() == 1 && r.content[0].text == "name: "@ + skills[0].name
            + "\ndescription: "@ + skills[0].description + "\npath: "@ + skills[0].location),
        sk.mode == "list"@ && skills.len() >= 2 ==> (chosen_step(
            scope,
            sk,
            skills,
        ) matches StepView::Done(Ok(r)) && chosen_step(
            scope,
            sk,
            skills.drop_last(),
        ) matches StepView::Done(Ok(q)) && r.content[0].text == q.content[0].text + "\n\n"@ + (
        "name: "@ + skills.last().name + "\ndescription: "@ + skills.last().description
            + "\npath: "@ + skills.last().location)),
        sk.mode == "read"@ && skills.len() != 1 ==> (chosen_step(scope, sk, skills) matches StepView::Done(
            Err(e),
        ) && e.code == -32602),
        sk.mode == "read"@ && skills.len() == 1 ==> !(chosen_step(scope, sk, skills) matches StepView::Done(
            Err(_),
        )),
        sk.mode != "read"@ && sk.mode != "list"@ ==> (chosen_step(scope, sk, skills) matches StepView::Done(
            Err(e),
        ) && e.code == -32602),
{
    reveal_strlit("list");
    reveal_strlit("read");
    assert("list"@[0] == 'l' && "read"@[0] == 'r');
    let entries = skills.map_values(|s: SkillInfoView| crate::skill::skill_entry(s));
    if skills.len() >= 2 {
        let fewer = skills.drop_last();
        assert(entries.drop_last() =~= fewer.map_values(
            |s: SkillInfoView| crate::skill::skill_entry(s),
        ));
        assert(entries.last() == crate::skill::skill_entry(skills.last()));
    }
}

/// What reading a skill shows starts with its name and holds its content.
pub proof fn law_skill_contents_are_shown(skill: SkillInfoView, files: Seq<Seq<char>>)
    ensures
        has_prefix(skill_read_text(skill, files), "<skill_content name=\""@ + skill.name + "\">"@),
        has_text(skill_read_text(skill, files), trimmed(skill.content)),
{
    let parts = seq![
        "<skill_content name=\""@ + skill.name + "\">"@,
        "# Skill: "@ + skill.name,
        Seq::empty(),
        trimmed(skill.content),
        Seq::empty(),
        "Base directory for this skill: "@ + crate::skill::dir_of(skill.location),
        "Relative paths in this skill (e.g., scripts/, reference/) are relative to this base directory."@,
        "Note: file list is sampled."@,
        "<skill_files>"@,
        crate::skill::file_lines(files),
        "</skill_files>"@,
        "</skill_content>"@,
    ];
    let text = skill_read_text(skill, files);
    crate::text::lemma_joined_holds(parts, "\n"@, 0);
    crate::text::lemma_joined_holds(parts, "\n"@, 3);
    crate::text::lemma_joined_starts(parts, "\n"@);
}

// ---------------------------------------------------------------------------
// Places
// ---------------------------------------------------------------------------

/// The files of a skill are looked for in the directory of its document.
pub proof fn law_skills_have_directories(dir: Seq<char>, separator: char, name: Seq<char>)
    requires
        is_separator(separator),
        forall|i: int| 0 <= i < name.len() ==> !is_separator(#[trigger] name[i]),
    ensures
        dir_of(dir.push(separator) + name) == dir,
    decreases name.len(),
{
    let all = dir.push(separator) + name;
    if name.len() == 0 {
        assert(all =~= dir.push(separator));
        assert(all.drop_last() =~= dir);
    } else {
        let fewer = name.drop_last();
        assert forall|i: int| 0 <= i < fewer.len() implies !is_separator(#[trigger] fewer[i]) by {
            assert(fewer[i] == name[i]);
        }
        law_skills_have_directories(dir, separator, fewer);
        assert(all.drop_last() =~= dir.push(separator) + fewer);
        assert(all.last() == name[name.len() - 1]);
    }
}

/// Beside a skill at most ten files are shown, none of them a document of a skill, all of them found;
/// where there are fewer, every such file is shown.
pub proof fn law_side_files(files: Seq<Seq<char>>, file: Seq<char>)
    ensures
        side_files(files).len() <= 10,
        side_files(files).contains(file) ==> files.contains(file) && !is_skill_file(file),
        files.contains(file) && !is_skill_file(file) && side_files(files).len() < 10
            ==> side_files(files).contains(file),
    decreases files.len(),
{
    if files.len() > 0 {
        let fewer = files.drop_last();
        law_side_files(fewer, file);
        let head = side_files(fewer);
        let all = side_files(files);
        let n = files.len() - 1;
        if all.contains(file) {
            let k = choose|k: int| 0 <= k < all.len() && all[k] == file;
            if k < head.len() {
                assert(head[k] == file);
                let i = choose|i: int| 0 <= i < fewer.len() && fewer[i] == file;
                assert(files[i] == file);
            } else {
                assert(files[n] == file);
            }
        }
        if files.contains(file) && !is_skill_file(file) && all.len() < 10 {
            let i = choose|i: int| 0 <= i < files.len() && files[i] == file;
            if i < n {
                assert(fewer[i] == file);
                let k = choose|k: int| 0 <= k < head.len() && head[k] == file;
                assert(all[k] == file);
            } else {
                assert(all[all.len() - 1] == file);
            }
        }
    }
}

/// The number that a reader puts before a line is taken away; a line without one is kept.
pub proof fn law_line_numbers_are_taken_away(n: nat, line: Seq<char>)
    ensures
        without_number(decimal(n as int) + ": "@ + line) == line,
        !has_text(line, ": "@) ==> without_number(line) == line,
{
    reveal_strlit(": ");
    let p = ": "@;
    assert(p.len() == 2 && p[0] == ':');
    let d = decimal(n as int);
    crate::base_laws::law_numbers_read_back(n as int, n as int);
    assert(all_digits(d)) by {
        assert(d[0] != '-');
        if d[0] == '+' {
            crate::shown_laws::lemma_digits_end(n);
        }
    }
    let s = d + p + line;
    let k = d.len() as int;
    assert(s.subrange(k, k + 2) =~= p);
    assert forall|i: int| 0 <= i < k implies !#[trigger] occurs_at(s, p, i) by {
        assert(s[i] == d[i]);
        assert(is_digit(d[i]));
        if occurs_at(s, p, i) {
            assert(s.subrange(i, i + 2)[0] == s[i]);
        }
    }
    lemma_found_at(s, p, 0, k);
    assert(s.take(k) =~= d);
    assert(s.skip(k + 2) =~= line);
    crate::text::lemma_first_at(line, p, 0);
}

} // verus!
