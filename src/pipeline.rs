use vstd::prelude::*;

use crate::redirect::{extraction_of, parse_redirection, target_of, Extraction, Redirect, Target};
use crate::text::same_text;
use crate::tokenizer::{parse_arguments, texts, tokens_of};

verus! {

/// One command of a pipeline, with its arguments and redirections.
#[derive(Debug)]
pub struct Stage {
    pub command: String,
    pub args: Vec<String>,
    pub stdout: Option<Redirect>,
    pub stderr: Option<Redirect>,
}

/// A stage as text.
pub struct StageView {
    pub command: Seq<char>,
    pub args: Seq<Seq<char>>,
    pub stdout: Option<Target>,
    pub stderr: Option<Target>,
}

impl View for Stage {
    type V = StageView;

    open spec fn view(&self) -> StageView {
        StageView {
            command: self.command@,
            args: texts(self.args@),
            stdout: target_of(self.stdout),
            stderr: target_of(self.stderr),
        }
    }
}

/// The views of a list of stages.
pub open spec fn stage_views(v: Seq<Stage>) -> Seq<StageView> {
    v.map_values(|s: Stage| s@)
}

/// The token groups of a list of groups.
pub open spec fn group_texts(v: Seq<Vec<String>>) -> Seq<Seq<Seq<char>>> {
    v.map_values(|g: Vec<String>| texts(g@))
}

/// The pipe operator, as a token of its own.
pub open spec fn is_pipe(t: Seq<char>) -> bool {
    t == seq!['|']
}

/// Ends a group; an empty one is dropped.
pub open spec fn close_group(groups: Seq<Seq<Seq<char>>>, cur: Seq<Seq<char>>) -> Seq<Seq<Seq<char>>> {
    if cur.len() > 0 {
        groups.push(cur)
    } else {
        groups
    }
}

/// Splits the tokens from index `i` on at each pipe operator, onto the
/// groups closed before `i` and the group `cur` being read.
pub open spec fn split_from(
    ts: Seq<Seq<char>>,
    i: int,
    groups: Seq<Seq<Seq<char>>>,
    cur: Seq<Seq<char>>,
) -> Seq<Seq<Seq<char>>>
    decreases ts.len() - i,
{
    if i < 0 || i >= ts.len() {
        close_group(groups, cur)
    } else if is_pipe(ts[i]) {
        split_from(ts, i + 1, close_group(groups, cur), Seq::empty())
    } else {
        split_from(ts, i + 1, groups, cur.push(ts[i]))
    }
}

/// The non-empty groups of tokens between pipe operators, in order.
pub open spec fn split_of(ts: Seq<Seq<char>>) -> Seq<Seq<Seq<char>>> {
    split_from(ts, 0, Seq::empty(), Seq::empty())
}

/// The stage that an extraction with a command gives.
pub open spec fn stage_of(e: Extraction) -> StageView {
    StageView {
        command: e.command[0],
        args: e.command.skip(1),
        stdout: e.stdout,
        stderr: e.stderr,
    }
}

/// The stages of token groups: each group's redirections are extracted on
/// their own, and a group left without a command gives no stage.
pub open spec fn stages_of(groups: Seq<Seq<Seq<char>>>) -> Seq<StageView>
    decreases groups.len(),
{
    if groups.len() == 0 {
        Seq::empty()
    } else {
        let before = stages_of(groups.drop_last());
        let e = extraction_of(groups.last());
        if e.command.len() > 0 {
            before.push(stage_of(e))
        } else {
            before
        }
    }
}

/// The pipeline that a line's tokens describe.
pub open spec fn pipeline_of(ts: Seq<Seq<char>>) -> Seq<StageView> {
    stages_of(split_of(ts))
}

/// Splits tokens at each `|` token; empty groups (from leading, trailing or
/// doubled pipes) are dropped.
pub fn split_pipeline(tokens: &Vec<String>) -> (groups: Vec<Vec<String>>)
    ensures
        group_texts(groups@) == split_of(texts(tokens@)),
{
    let ghost ts = texts(tokens@);
    let mut groups: Vec<Vec<String>> = Vec::new();
    let mut cur: Vec<String> = Vec::new();
    let n = tokens.len();
    let mut i: usize = 0;
    assert(group_texts(groups@) =~= Seq::<Seq<Seq<char>>>::empty());
    assert(texts(cur@) =~= Seq::<Seq<char>>::empty());
    while i < n
        invariant
            n == tokens@.len(),
            ts == texts(tokens@),
            i <= n,
            split_from(ts, i as int, group_texts(groups@), texts(cur@)) == split_of(ts),
        decreases n - i,
    {
        let t = &tokens[i];
        assert(ts[i as int] == t@);
        proof {
            reveal_strlit("|");
        }
        if same_text(t.as_str(), "|") {
            assert("|"@ =~= seq!['|']);
            if cur.len() > 0 {
                let ghost before = group_texts(groups@);
                let ghost last = texts(cur@);
                groups.push(cur);
                assert(group_texts(groups@) =~= before.push(last));
            }
            cur = Vec::new();
            assert(texts(cur@) =~= Seq::<Seq<char>>::empty());
        } else {
            assert(!is_pipe(t@)) by {
                if t@ == seq!['|'] {
                    assert(t@ =~= "|"@);
                }
            }
            let ghost before = texts(cur@);
            cur.push(t.clone());
            assert(texts(cur@) =~= before.push(t@));
        }
        i = i + 1;
    }
    if cur.len() > 0 {
        let ghost before = group_texts(groups@);
        let ghost last = texts(cur@);
        groups.push(cur);
        assert(group_texts(groups@) =~= before.push(last));
    }
    groups
}

/// Splits tokens into the stages of a pipeline, extracting each stage's
/// redirections on its own.
pub fn build_pipeline(tokens: &Vec<String>) -> (stages: Vec<Stage>)
    ensures
        stage_views(stages@) == pipeline_of(texts(tokens@)),
{
    let groups = split_pipeline(tokens);
    let ghost gs = split_of(texts(tokens@));
    let mut stages: Vec<Stage> = Vec::new();
    let n = groups.len();
    let mut i: usize = 0;
    assert(gs.take(0) =~= Seq::<Seq<Seq<char>>>::empty());
    assert(stage_views(stages@) =~= Seq::<StageView>::empty());
    while i < n
        invariant
            n == groups@.len(),
            gs == group_texts(groups@),
            i <= n,
            stage_views(stages@) == stages_of(gs.take(i as int)),
        decreases n - i,
    {
        let e = parse_redirection(groups[i].as_slice());
        proof {
            let pre = gs.take(i as int + 1);
            assert(pre.drop_last() =~= gs.take(i as int));
            assert(pre.last() == texts(groups@[i as int]@));
        }
        if e.command.len() > 0 {
            let mut command = e.command;
            let ghost words = texts(command@);
            let first = command.remove(0);
            assert(texts(command@) =~= words.skip(1));
            let stage = Stage { command: first, args: command, stdout: e.stdout, stderr: e.stderr };
            let ghost before = stage_views(stages@);
            stages.push(stage);
            assert(stage_views(stages@) =~= before.push(stage@));
        }
        i = i + 1;
    }
    assert(gs.take(n as int) =~= gs);
    stages
}

/// The pipeline that an input line describes.
pub fn parse_line(line: &str) -> (stages: Vec<Stage>)
    ensures
        stage_views(stages@) == pipeline_of(tokens_of(line@)),
{
    let tokens = parse_arguments(line);
    build_pipeline(&tokens)
}

} // verus!
