//! Properties of the gateway as a whole.
use vstd::prelude::*;
use vstd::string::StringSliceAdditionalSpecFns;
use crate::gateway::{
    asset_headers, default_headers, envelope_text, forward_response, ActionView, ForwardResult,
    Gateway, Incoming, CONTENT_TYPE, EMBEDDER_POLICY, ERROR_BODY, METHOD_KEY, OPENER_POLICY,
    PATH_KEY, STATUS_NOT_FOUND, STATUS_OK, WORKER_TIMEOUT_SECS,
};
use crate::routes::{
    is_standard_path, RouteAction, StaticAssets, APPLICATION_JAVASCRIPT, AUDIO_PATH,
    INDEX2_JS_PATH, INDEX_CSS_PATH, INDEX_JS_PATH, ROOT_PATH, TEXT_CSS, TEXT_HTML, VIZ_JS_PATH,
};
use crate::upload::upload_audio;

verus! {

/// Some header has this name.
pub open spec fn has_header(hs: Seq<(Seq<char>, Seq<char>)>, name: Seq<char>) -> bool {
    exists|i: int| 0 <= i < hs.len() && #[trigger] hs[i].0 == name
}

/// A response that carries both cross-origin isolation headers.
pub open spec fn isolated(a: ActionView) -> bool {
    match a {
        ActionView::Respond { headers, .. } => has_header(headers, EMBEDDER_POLICY@) && has_header(
            headers,
            OPENER_POLICY@,
        ),
        _ => false,
    }
}

proof fn lemma_header_names_distinct()
    ensures
        CONTENT_TYPE@ != EMBEDDER_POLICY@,
        CONTENT_TYPE@ != OPENER_POLICY@,
{
    reveal_strlit("Content-Type");
    reveal_strlit("Cross-Origin-Embedder-Policy");
    reveal_strlit("Cross-Origin-Opener-Policy");
    assert(CONTENT_TYPE@.len() == 12);
    assert(EMBEDDER_POLICY@.len() == 28);
    assert(OPENER_POLICY@.len() == 26);
}

/// With the standard routes, each of the six paths, without a payload,
/// gets its asset under its content type (the audio upload gets nothing),
/// and every other path gets a 404 that is not the root's page.
pub proof fn lemma_standard_paths(gw: Gateway, assets: StaticAssets)
    requires
        gw.wf(),
        gw.routes.is_standard(assets),
    ensures
        gw.serve_spec(ROOT_PATH@, None) == (ActionView::Respond {
            status: STATUS_OK,
            headers: asset_headers(ROOT_PATH@, TEXT_HTML@),
            body: assets.page@,
        }),
        gw.serve_spec(INDEX_JS_PATH@, None) == (ActionView::Respond {
            status: STATUS_OK,
            headers: seq![(CONTENT_TYPE@, APPLICATION_JAVASCRIPT@)],
            body: assets.index_js@,
        }),
        gw.serve_spec(INDEX2_JS_PATH@, None) == (ActionView::Respond {
            status: STATUS_OK,
            headers: seq![(CONTENT_TYPE@, APPLICATION_JAVASCRIPT@)],
            body: assets.index2_js@,
        }),
        gw.serve_spec(VIZ_JS_PATH@, None) == (ActionView::Respond {
            status: STATUS_OK,
            headers: seq![(CONTENT_TYPE@, APPLICATION_JAVASCRIPT@)],
            body: assets.viz_js@,
        }),
        gw.serve_spec(INDEX_CSS_PATH@, None) == (ActionView::Respond {
            status: STATUS_OK,
            headers: seq![(CONTENT_TYPE@, TEXT_CSS@)],
            body: assets.index_css@,
        }),
        gw.serve_spec(AUDIO_PATH@, None) == ActionView::Ignore,
        forall|p: Seq<char>, b: Option<Seq<u8>>|
            !is_standard_path(p) ==> #[trigger] gw.serve_spec(p, b) == (ActionView::Respond {
                status: STATUS_NOT_FOUND,
                headers: default_headers(),
                body: Seq::empty(),
            }),
{
    reveal_strlit("/");
    reveal_strlit("/index.js");
    reveal_strlit("/index2.js");
    reveal_strlit("/viz.js");
    reveal_strlit("/index.css");
    assert(ROOT_PATH@.len() == 1);
    assert(INDEX_JS_PATH@.len() == 9);
    assert(INDEX2_JS_PATH@.len() == 10);
    assert(VIZ_JS_PATH@.len() == 7);
    assert(INDEX_CSS_PATH@.len() == 10);
}

/// A response carries the cross-origin isolation headers exactly when it
/// serves an asset at the root path; the response to a worker call never
/// does.
pub proof fn lemma_isolation_only_at_root(gw: Gateway, msg: Incoming, result: ForwardResult)
    requires
        gw.wf(),
    ensures
        isolated(gw.handle_spec(msg)) ==> (msg is Request && envelope_text(
            msg->envelope@,
            PATH_KEY@,
        ) == Some(ROOT_PATH@)),
        !isolated(forward_response(result)),
        forall|p: Seq<char>, b: Option<Seq<u8>>|
            #![trigger gw.serve_spec(p, b)]
            (gw.serve_spec(p, b) is Respond && p != ROOT_PATH@) ==> !isolated(gw.serve_spec(p, b)),
        forall|b: Option<Seq<u8>>|
            #![trigger gw.serve_spec(ROOT_PATH@, b)]
            (gw.routes.route(ROOT_PATH@) matches Some(RouteAction::ServeAsset { .. })) ==> isolated(
                gw.serve_spec(ROOT_PATH@, b),
            ),
{
    lemma_header_names_distinct();
    assert(!has_header(default_headers(), EMBEDDER_POLICY@));
    assert forall|p: Seq<char>, ct: Seq<char>| p != ROOT_PATH@ implies !has_header(
        #[trigger] asset_headers(p, ct),
        EMBEDDER_POLICY@,
    ) by {}
    assert forall|ct: Seq<char>| has_header(#[trigger] asset_headers(ROOT_PATH@, ct), EMBEDDER_POLICY@)
        && has_header(asset_headers(ROOT_PATH@, ct), OPENER_POLICY@) by {
        assert(asset_headers(ROOT_PATH@, ct)[1].0 == EMBEDDER_POLICY@);
        assert(asset_headers(ROOT_PATH@, ct)[2].0 == OPENER_POLICY@);
    }
}

/// An upload whose form holds base64 of some audio goes to the worker as
/// that audio; the worker's reply comes back as the body of a 200.
pub proof fn lemma_audio_round_trip(gw: Gateway, path: Seq<char>, body: Seq<u8>, audio: Seq<u8>, reply: Vec<u8>)
    requires
        gw.wf(),
        gw.routes.route(path) == Some(RouteAction::ForwardAudio),
        upload_audio(body) == Ok::<Seq<u8>, crate::upload::UploadError>(audio),
    ensures
        gw.serve_spec(path, Some(body)) == (ActionView::Forward {
            target: gw.worker@,
            payload: audio,
            timeout_secs: WORKER_TIMEOUT_SECS,
        }),
        forward_response(ForwardResult::Success(reply)) == (ActionView::Respond {
            status: STATUS_OK,
            headers: default_headers(),
            body: reply@,
        }),
{
}

/// A worker call that times out or fails gives a 200 whose body is the
/// error text.
pub proof fn lemma_failed_call_reads_error(result: ForwardResult)
    requires
        !(result is Success),
    ensures
        forward_response(result) == (ActionView::Respond {
            status: STATUS_OK,
            headers: default_headers(),
            body: ERROR_BODY.spec_bytes(),
        }),
{
}

/// An upload that does not decode, as a form or as base64, gets no response.
pub proof fn lemma_bad_upload_is_silent(gw: Gateway, path: Seq<char>, body: Seq<u8>)
    requires
        gw.wf(),
        gw.routes.route(path) == Some(RouteAction::ForwardAudio),
        upload_audio(body) is Err,
    ensures
        gw.serve_spec(path, Some(body)) == ActionView::Ignore,
{
}

/// A request from anywhere but the front-end gets nothing done.
pub proof fn lemma_foreign_source_ignored(gw: Gateway, msg: Incoming)
    requires
        gw.wf(),
        msg is Request,
        msg->source@ != gw.front_end@,
    ensures
        gw.handle_spec(msg) == ActionView::Ignore,
{
}

/// Two requests for the same asset path get the same response, whatever
/// their methods and payloads.
pub proof fn lemma_static_idempotent(gw: Gateway, first: Incoming, second: Incoming)
    requires
        gw.wf(),
        first is Request,
        second is Request,
        first->source@ == gw.front_end@,
        second->source@ == gw.front_end@,
        envelope_text(first->envelope@, PATH_KEY@) == envelope_text(second->envelope@, PATH_KEY@),
        envelope_text(first->envelope@, METHOD_KEY@) is Some,
        envelope_text(second->envelope@, METHOD_KEY@) is Some,
        envelope_text(first->envelope@, PATH_KEY@) matches Some(p) && gw.routes.route(p) matches Some(
            RouteAction::ServeAsset { .. },
        ),
    ensures
        gw.handle_spec(first) == gw.handle_spec(second),
{
}

} // verus!
