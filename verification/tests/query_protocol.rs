//! The query usage protocol and the conditional-render block.

use glsync::caps::{Api, Capabilities, ExtensionSet, Version};
use glsync::commands::Command;
use glsync::draw::{draw, DrawContext};
use glsync::index::{IndicesSource, PrimitiveType};
use glsync::params::{ConditionalRendering, DrawParameters, SamplesQueryParam};
use glsync::queries::{sync_conditional_render, sync_queries, QueryLifecycleManager};
use glsync::state::RenderState;
use glsync::vertex::VerticesSource;
use glsync::DrawError;

fn desktop_caps() -> Capabilities {
    Capabilities {
        version: Version { api: Api::Gl, major: 4, minor: 5 },
        extensions: ExtensionSet::none(),
        max_patch_vertices: Some(32),
        max_viewport_width: 16384,
        max_viewport_height: 16384,
    }
}

fn draw_once(ctx: &mut DrawContext, params: &DrawParameters) -> Result<(), DrawError> {
    let sources = vec![VerticesSource::Marker { len: 3, per_instance: false }];
    let indices = IndicesSource::NoIndices { primitives: PrimitiveType::TrianglesList };
    let mut cmds = Vec::new();
    draw(ctx, &mut cmds, 0, &sources, &indices, 1, 1, params, (640, 480), 0)
}

#[test]
fn binding_begins_and_unbinding_ends_a_query() {
    let mut bindings = RenderState::fresh().queries;
    let mut queries = QueryLifecycleManager::new();
    let mut cmds = Vec::new();
    sync_queries(&mut bindings, &mut queries, &mut cmds, None, Some(7), None, None).unwrap();
    assert_eq!(cmds, vec![Command::BeginQuery { target: 0x88BF, query: 7 }]);
    let mut more = Vec::new();
    sync_queries(&mut bindings, &mut queries, &mut more, None, None, None, None).unwrap();
    assert_eq!(more, vec![Command::EndQuery { target: 0x88BF }]);
}

#[test]
fn keeping_a_binding_emits_nothing() {
    let mut bindings = RenderState::fresh().queries;
    let mut queries = QueryLifecycleManager::new();
    let mut cmds = Vec::new();
    let q = Some(SamplesQueryParam::SamplesPassedQuery(3));
    sync_queries(&mut bindings, &mut queries, &mut cmds, q, None, None, None).unwrap();
    assert_eq!(cmds, vec![Command::BeginQuery { target: 0x8914, query: 3 }]);
    let mut more = Vec::new();
    sync_queries(&mut bindings, &mut queries, &mut more, q, None, None, None).unwrap();
    assert_eq!(more, vec![]);
}

#[test]
fn an_ended_query_is_finished_for_draw_time_use() {
    let mut bindings = RenderState::fresh().queries;
    let mut queries = QueryLifecycleManager::new();
    let mut cmds = Vec::new();
    sync_queries(&mut bindings, &mut queries, &mut cmds, None, None, Some(9), None).unwrap();
    sync_queries(&mut bindings, &mut queries, &mut cmds, None, None, None, None).unwrap();
    let r = sync_queries(&mut bindings, &mut queries, &mut cmds, None, None, Some(9), None);
    assert_eq!(r, Err(DrawError::WrongQueryOperation));
}

#[test]
fn used_then_drawn_without_then_rebound_fails() {
    let caps = desktop_caps();
    let mut ctx = DrawContext::new(caps);
    let mut with_query = DrawParameters::default();
    with_query.samples_passed_query = Some(SamplesQueryParam::SamplesPassedQuery(42));
    assert_eq!(draw_once(&mut ctx, &with_query), Ok(()));
    // A draw without the query ends it; its prior use finishes its life.
    let without = DrawParameters::default();
    assert_eq!(draw_once(&mut ctx, &without), Ok(()));
    // Rebinding it for a later draw violates the protocol.
    assert_eq!(draw_once(&mut ctx, &with_query), Err(DrawError::WrongQueryOperation));
}

#[test]
fn the_two_samples_kinds_use_their_own_targets() {
    let mut bindings = RenderState::fresh().queries;
    let mut queries = QueryLifecycleManager::new();
    let mut cmds = Vec::new();
    sync_queries(&mut bindings, &mut queries, &mut cmds,
        Some(SamplesQueryParam::AnySamplesPassedQuery(5)), None, None, None).unwrap();
    assert_eq!(cmds, vec![Command::BeginQuery { target: 0x8C2F, query: 5 }]);
}

#[test]
fn conditional_render_is_deduplicated() {
    let mut state: Option<ConditionalRendering> = None;
    let mut cmds = Vec::new();
    let condition = Some(ConditionalRendering {
        query: SamplesQueryParam::SamplesPassedQuery(11),
        wait: true,
        per_region: false,
    });
    sync_conditional_render(&mut state, &mut cmds, condition);
    assert_eq!(cmds, vec![Command::BeginConditionalRender { query: 11, mode: 0x8E13 }]);
    let mut more = Vec::new();
    sync_conditional_render(&mut state, &mut more, condition);
    assert_eq!(more, vec![]);
    let mut end = Vec::new();
    sync_conditional_render(&mut state, &mut end, None);
    assert_eq!(end, vec![Command::EndConditionalRender]);
}

#[test]
fn conditional_render_does_not_touch_query_life() {
    let caps = desktop_caps();
    let mut ctx = DrawContext::new(caps);
    let mut gated = DrawParameters::default();
    gated.condition = Some(ConditionalRendering {
        query: SamplesQueryParam::SamplesPassedQuery(8),
        wait: false,
        per_region: true,
    });
    assert_eq!(draw_once(&mut ctx, &gated), Ok(()));
    assert_eq!(draw_once(&mut ctx, &DrawParameters::default()), Ok(()));
    // The query was only a condition, never bound, so binding it now is
    // still legal.
    let mut with_query = DrawParameters::default();
    with_query.samples_passed_query = Some(SamplesQueryParam::SamplesPassedQuery(8));
    assert_eq!(draw_once(&mut ctx, &with_query), Ok(()));
}

#[test]
fn conditional_mode_reflects_wait_and_region() {
    let mut state: Option<ConditionalRendering> = None;
    let mut cmds = Vec::new();
    sync_conditional_render(&mut state, &mut cmds, Some(ConditionalRendering {
        query: SamplesQueryParam::AnySamplesPassedQuery(2),
        wait: true,
        per_region: true,
    }));
    assert_eq!(cmds, vec![Command::BeginConditionalRender { query: 2, mode: 0x8E15 }]);
}
