//! Pipeline nodes and the document pipeline's merge protocol: node outputs
//! are collected in spawn order, the first failure aborts the whole run,
//! and each output's document patch is applied to the root document in
//! spawn order, so the finished document is a function of the source bytes
//! and the ordered outputs alone.

use vstd::prelude::*;
use vstd::string::*;

use crate::document::{spec_append_to_head, HtmlDocument};

verus! {

/// A node that injects the live-reload client script into the document
/// head; it is spawned only when hot reload is enabled.
#[derive(Debug, PartialEq, Eq)]
pub struct SSEReloadScript;

/// Document-patch metadata produced by an ordinary asset node: markup to
/// insert at the end of the document head (an injected script or link tag).
#[derive(Debug, PartialEq, Eq)]
pub struct AssetPatch {
    pub fragment: Vec<u8>,
}

/// The typed output of one pipeline node, handed to the document pipeline
/// for merging.
#[derive(Debug, PartialEq, Eq)]
pub enum PipelineOutput {
    Asset(AssetPatch),
    SseReload(SSEReloadScript),
}

/// The script tag the reload node injects.
pub open spec fn spec_reload_script() -> Seq<u8> {
    "<script>new EventSource(\"/build_events\").addEventListener(\"build_event\", function (msg) { var data = JSON.parse(msg.data); if (data.type === \"success\") { window.location.reload(); } });</script>".spec_bytes()
}

/// The markup fragment an output patches into the document head.
pub open spec fn output_fragment(o: PipelineOutput) -> Seq<u8> {
    match o {
        PipelineOutput::Asset(p) => p.fragment@,
        PipelineOutput::SseReload(_) => spec_reload_script(),
    }
}

/// The document after the outputs' patches are applied in spawn order.
pub open spec fn spec_merge(doc: Seq<u8>, outs: Seq<PipelineOutput>) -> Seq<u8>
    decreases outs.len(),
{
    if outs.len() == 0 {
        doc
    } else {
        spec_append_to_head(spec_merge(doc, outs.drop_last()), output_fragment(outs.last()))
    }
}

/// Every node result is a success.
pub open spec fn all_ok(rs: Seq<Result<PipelineOutput, String>>) -> bool {
    forall|i: int| 0 <= i < rs.len() ==> rs[i] is Ok
}

/// The outputs of an all-successful result list, in order.
pub open spec fn ok_outputs(rs: Seq<Result<PipelineOutput, String>>) -> Seq<PipelineOutput> {
    rs.map_values(|x: Result<PipelineOutput, String>| x->Ok_0)
}

/// Position `i` holds the first failure in `rs`.
pub open spec fn is_first_error_at(rs: Seq<Result<PipelineOutput, String>>, i: int) -> bool {
    0 <= i < rs.len() && rs[i] is Err && forall|j: int| 0 <= j < i ==> rs[j] is Ok
}

/// `e` is the first failure in `rs`.
pub open spec fn first_error(rs: Seq<Result<PipelineOutput, String>>, e: String) -> bool {
    exists|i: int| is_first_error_at(rs, i) && e == rs[i]->Err_0
}

impl SSEReloadScript {
    pub fn new() -> (r: Self)
        ensures
            r == (SSEReloadScript {  }),
    {
        Self {  }
    }

    /// The reload node's transform is pure: it yields its own output.
    pub fn build(self) -> (r: Result<PipelineOutput, String>)
        ensures
            r == Ok::<PipelineOutput, String>(PipelineOutput::SseReload(self)),
    {
        Ok(PipelineOutput::SseReload(self))
    }

    /// Patch the reload client script into the document head.
    pub fn finalize(self, dom: &mut HtmlDocument) -> (r: Result<(), String>)
        ensures
            r is Ok,
            final(dom)@ == spec_append_to_head(old(dom)@, spec_reload_script()),
    {
        let script = ("<script>new EventSource(\"/build_events\").addEventListener(\"build_event\", function (msg) { var data = JSON.parse(msg.data); if (data.type === \"success\") { window.location.reload(); } });</script>").as_bytes_vec();
        dom.append_to_head(&script);
        Ok(())
    }
}

impl PipelineOutput {
    /// Apply this output's document patch.
    pub fn finalize(self, dom: &mut HtmlDocument)
        ensures
            final(dom)@ == spec_append_to_head(old(dom)@, output_fragment(self)),
    {
        match self {
            PipelineOutput::Asset(p) => {
                dom.append_to_head(&p.fragment);
            },
            PipelineOutput::SseReload(node) => {
                let _ = node.finalize(dom);
            },
        }
    }
}

/// Await step of the document pipeline: keep every output when all nodes
/// succeeded, otherwise fail with the first failure in spawn order.
#[verifier::loop_isolation(false)]
pub fn collect_outputs(results: Vec<Result<PipelineOutput, String>>) -> (r: Result<
    Vec<PipelineOutput>,
    String,
>)
    ensures
        r is Ok <==> all_ok(results@),
        r is Ok ==> r->Ok_0@ == ok_outputs(results@),
        r is Err ==> first_error(results@, r->Err_0),
{
    let ghost orig = results@;
    let mut rest = results;
    let total = rest.len();
    let mut outs: Vec<PipelineOutput> = Vec::new();
    let mut i: usize = 0;
    while rest.len() > 0
        invariant
            orig.len() == total,
            i + rest@.len() == orig.len(),
            rest@ =~= orig.subrange(i as int, orig.len() as int),
            forall|j: int| 0 <= j < i ==> orig[j] is Ok,
            outs@.len() == i,
            forall|j: int| 0 <= j < i ==> outs@[j] == orig[j]->Ok_0,
        decreases rest@.len(),
    {
        let x = rest.remove(0);
        proof {
            assert(x == orig[i as int]);
        }
        match x {
            Ok(out) => {
                outs.push(out);
                i += 1;
            },
            Err(e) => {
                proof {
                    assert(is_first_error_at(orig, i as int) && e == orig[i as int]->Err_0);
                    assert(first_error(orig, e));
                    assert(!all_ok(orig)) by {
                        assert(orig[i as int] is Err);
                    }
                }
                return Err(e);
            },
        }
    }
    proof {
        assert(outs@ =~= ok_outputs(orig));
    }
    Ok(outs)
}

/// Apply each output's document patch in spawn order.
pub fn merge_outputs(dom: &mut HtmlDocument, outputs: Vec<PipelineOutput>)
    ensures
        final(dom)@ == spec_merge(old(dom)@, outputs@),
{
    let ghost orig_doc = dom@;
    let ghost all = outputs@;
    let mut rest = outputs;
    let total = rest.len();
    let ghost n = all.len();
    let mut i: usize = 0;
    while rest.len() > 0
        invariant
            n == total,
            i + rest@.len() == n,
            all.len() == n,
            rest@ =~= all.subrange(i as int, n as int),
            dom@ == spec_merge(orig_doc, all.subrange(0, i as int)),
        decreases rest@.len(),
    {
        let x = rest.remove(0);
        proof {
            assert(x == all[i as int]);
        }
        x.finalize(dom);
        proof {
            assert(all.subrange(0, i + 1).drop_last() =~= all.subrange(0, i as int));
            assert(all.subrange(0, i + 1).last() == all[i as int]);
        }
        i += 1;
    }
    proof {
        assert(all.subrange(0, n as int) =~= all);
    }
}

/// Law: the merged document is a function of the source bytes and the
/// spawn-ordered outputs alone, so repeated builds of unchanged input
/// produce byte-identical documents.
pub proof fn lemma_merge_deterministic(
    d1: Seq<u8>,
    d2: Seq<u8>,
    o1: Seq<PipelineOutput>,
    o2: Seq<PipelineOutput>,
)
    requires
        d1 == d2,
        o1 == o2,
    ensures
        spec_merge(d1, o1) == spec_merge(d2, o2),
{
}

/// The document pipeline: owns the root document and, on spawn, turns the
/// node results gathered in spawn order into the finished document.
pub struct HtmlPipeline {
    pub source: HtmlDocument,
    pub hot_reload: bool,
}

/// The node results the pipeline merges: the spawned asset nodes' results
/// in spawn order, then the environment-conditional reload node.
pub open spec fn effective_results(
    node_results: Seq<Result<PipelineOutput, String>>,
    hot_reload: bool,
) -> Seq<Result<PipelineOutput, String>> {
    if hot_reload {
        node_results.push(Ok(PipelineOutput::SseReload(SSEReloadScript {  })))
    } else {
        node_results
    }
}

impl HtmlPipeline {
    pub fn new(source: HtmlDocument, hot_reload: bool) -> (r: Self)
        ensures
            r.source@ == source@,
            r.hot_reload == hot_reload,
    {
        HtmlPipeline { source, hot_reload }
    }

    /// Finish the pipeline: consume it, gather the asset nodes' results in
    /// spawn order, append the conditional reload node, and either merge
    /// every output's patch into the document or fail with the first
    /// failure. The caller runs the nodes and hands their results over in
    /// the order they were spawned.
    pub fn spawn(self, node_results: Vec<Result<PipelineOutput, String>>) -> (r: Result<
        HtmlDocument,
        String,
    >)
        ensures
            r is Ok <==> all_ok(node_results@),
            r is Ok ==> r->Ok_0@ == spec_merge(
                self.source@,
                ok_outputs(effective_results(node_results@, self.hot_reload)),
            ),
            r is Err ==> first_error(node_results@, r->Err_0),
    {
        let ghost given = node_results@;
        let mut results = node_results;
        if self.hot_reload {
            let node = SSEReloadScript::new();
            let built = node.build();
            results.push(match built {
                Ok(out) => Ok(out),
                Err(e) => Err(e),
            });
        }
        proof {
            assert(results@ =~= effective_results(given, self.hot_reload));
            assert(all_ok(results@) <==> all_ok(given)) by {
                if all_ok(given) {
                    assert(forall|i: int| 0 <= i < results@.len() ==> results@[i] is Ok);
                }
                if all_ok(results@) {
                    assert(forall|i: int|
                        0 <= i < given.len() ==> given[i] == results@[i] && results@[i] is Ok);
                }
            }
        }
        let outputs = match collect_outputs(results) {
            Ok(outs) => outs,
            Err(e) => {
                proof {
                    lemma_first_error_restrict(given, self.hot_reload, e);
                }
                return Err(e);
            },
        };
        let mut dom = self.source;
        merge_outputs(&mut dom, outputs);
        Ok(dom)
    }
}

/// A first failure among the effective results is a first failure among
/// the spawned nodes' own results: the appended reload node never fails.
proof fn lemma_first_error_restrict(
    given: Seq<Result<PipelineOutput, String>>,
    hot_reload: bool,
    e: String,
)
    requires
        first_error(effective_results(given, hot_reload), e),
    ensures
        first_error(given, e),
{
    let all = effective_results(given, hot_reload);
    let i = choose|i: int| is_first_error_at(all, i) && e == all[i]->Err_0;
    assert(i < given.len());
    assert(given[i] is Err && e == given[i]->Err_0);
    assert(forall|j: int| 0 <= j < i ==> given[j] == all[j] && all[j] is Ok);
    assert(is_first_error_at(given, i) && e == given[i]->Err_0);
    assert(first_error(given, e));
}

} // verus!
