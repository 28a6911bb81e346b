//! What the chart agent endpoint advertises about this runtime.

use vstd::prelude::*;

use crate::routes::{Method, Route, routes_view, chart_agent_routes};

use crate::error::{ApiError, BAD_REQUEST};

verus! {

/// Routes of the chart agent: `GET /chart-agent/capabilities`.
pub fn router() -> (routes: Vec<Route>)
    ensures
        routes_view(routes@) == chart_agent_routes(),
{
    let routes = vec![Route { method: Method::Get, path: "/chart-agent/capabilities" }];
    assert(routes_view(routes@) =~= chart_agent_routes());
    routes
}

#[derive(Debug)]
pub struct ChartAgentCapabilities {
    pub protocol_version: &'static str,
    pub runtime_version: &'static str,
    pub scene_epoch: u64,
    pub capability_ids: Vec<&'static str>,
    pub supported_edit_types: Vec<&'static str>,
}

pub open spec fn protocol_version_text() -> Seq<char> {
    "koharu-chart-agent.v1"@
}

/// The capabilities, in the order they are advertised.
pub open spec fn capability_id_texts() -> Seq<Seq<char>> {
    seq![
        "scene.conditional_epoch"@,
        "scene.batch_patch"@,
        "idempotency.receipt"@,
        "pipeline.run"@,
        "pipeline.text_node_scope"@,
        "mask.upload"@,
    ]
}

/// The edit types, in the order they are advertised.
pub open spec fn edit_type_texts() -> Seq<Seq<char>> {
    seq![
        "set_translation"@,
        "set_line_breaks"@,
        "set_font_size"@,
        "set_text_align"@,
        "set_font_families"@,
        "set_text_color"@,
        "set_rotation"@,
        "set_layout_box"@,
        "set_rendered_direction"@,
        "update_inpaint_mask"@,
        "run_local_inpaint"@,
    ]
}

pub open spec fn no_project_message() -> Seq<char> {
    "no project open"@
}

/// The capabilities of this runtime for the open project, whose scene is at
/// `session_epoch`; a bad request when no project is open.
pub fn get_capabilities(session_epoch: Option<u64>, runtime_version: &'static str) -> (r: Result<
    ChartAgentCapabilities,
    ApiError,
>)
    ensures
        session_epoch is None <==> r is Err,
        r matches Err(e) ==> e@ == (BAD_REQUEST, no_project_message()),
        r matches Ok(c) ==> {
            &&& c.protocol_version@ == protocol_version_text()
            &&& c.runtime_version == runtime_version
            &&& c.scene_epoch == session_epoch->0
            &&& c.capability_ids.deep_view() == capability_id_texts()
            &&& c.supported_edit_types.deep_view() == edit_type_texts()
        },
{
    let epoch = match session_epoch {
        None => {
            return Err(ApiError::bad_request("no project open"));
        },
        Some(epoch) => epoch,
    };
    let capability_ids = vec![
        "scene.conditional_epoch",
        "scene.batch_patch",
        "idempotency.receipt",
        "pipeline.run",
        "pipeline.text_node_scope",
        "mask.upload",
    ];
    let supported_edit_types = vec![
        "set_translation",
        "set_line_breaks",
        "set_font_size",
        "set_text_align",
        "set_font_families",
        "set_text_color",
        "set_rotation",
        "set_layout_box",
        "set_rendered_direction",
        "update_inpaint_mask",
        "run_local_inpaint",
    ];
    assert(capability_ids.deep_view() =~= capability_id_texts());
    assert(supported_edit_types.deep_view() =~= edit_type_texts());
    Ok(
        ChartAgentCapabilities {
            protocol_version: "koharu-chart-agent.v1",
            runtime_version,
            scene_epoch: epoch,
            capability_ids,
            supported_edit_types,
        },
    )
}

} // verus!
