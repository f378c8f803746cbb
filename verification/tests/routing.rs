//! The tables of routes.
use workspace_api::routes::collab_scope;
use workspace_api::routes::workspace_scope;
use workspace_api::routes::Handler;
use workspace_api::routes::Method;
use workspace_api::routes::Scope;
use workspace_api::routes::COLLAB_OBJECT_ID_PATH;
use workspace_api::routes::COLLAB_PATTERN;
use workspace_api::routes::V1_COLLAB_PATTERN;
use workspace_api::routes::WORKSPACE_ID_PATH;
use workspace_api::routes::WORKSPACE_INVITE_PATTERN;
use workspace_api::routes::WORKSPACE_MEMBER_PATTERN;
use workspace_api::routes::WORKSPACE_PATTERN;
use workspace_api::routes::WORKSPACE_PUBLISH_NAMESPACE_PATTERN;
use workspace_api::routes::WORKSPACE_PUBLISH_PATTERN;

fn routes<'a>(scope: &'a Scope, pattern: &str) -> &'a Vec<(Method, Handler)> {
    match scope.resources.iter().find(|resource| resource.pattern == pattern) {
        Some(resource) => &resource.routes,
        None => panic!("no such resource"),
    }
}

#[test]
fn the_workspaces_have_their_routes() {
    let scope = workspace_scope();
    assert_eq!(scope.prefix, "/api/workspace");
    assert_eq!(scope.resources.len(), 58);
    assert_eq!(
        routes(&scope, ""),
        &vec![
            (Method::Get, Handler::ListWorkspace),
            (Method::Post, Handler::CreateWorkspace),
            (Method::Patch, Handler::PatchWorkspace),
        ]
    );
    assert_eq!(
        routes(&scope, "/{workspace_id}/collab/{object_id}"),
        &vec![
            (Method::Post, Handler::CreateCollab),
            (Method::Get, Handler::GetCollab),
            (Method::Put, Handler::UpdateCollab),
            (Method::Delete, Handler::DeleteCollab),
        ]
    );
    assert_eq!(
        routes(&scope, "/{workspace_id}/collab_list"),
        &vec![(Method::Get, Handler::BatchGetCollab), (Method::Post, Handler::BatchGetCollab)]
    );
    assert_eq!(
        routes(&scope, "{workspace_id}/published-duplicate"),
        &vec![(Method::Post, Handler::PostPublishedDuplicate)]
    );
    assert_eq!(
        routes(&scope, "/{workspace_id}/quick-note/{quick_note_id}"),
        &vec![(Method::Put, Handler::UpdateQuickNote), (Method::Delete, Handler::DeleteQuickNote)]
    );
}

#[test]
fn only_objects_have_a_limit_of_their_own() {
    for resource in workspace_scope().resources {
        let limit = if resource.pattern == "/{workspace_id}/collab/{object_id}" {
            Some(5242880)
        } else {
            None
        };
        assert_eq!(resource.payload_limit, limit);
    }
}

#[test]
fn realtime_messages_have_their_route() {
    let scope = collab_scope();
    assert_eq!(scope.prefix, "/api/realtime");
    assert_eq!(scope.resources.len(), 1);
    assert_eq!(scope.resources[0].pattern, "post/stream");
    assert_eq!(scope.resources[0].payload_limit, Some(10485760));
    assert_eq!(
        scope.resources[0].routes,
        vec![(Method::Post, Handler::PostRealtimeMessageStream)]
    );
}

#[test]
fn patterns_and_methods_occur_once() {
    let scope = workspace_scope();
    for (i, resource) in scope.resources.iter().enumerate() {
        for other in &scope.resources[i + 1..] {
            assert_ne!(resource.pattern, other.pattern);
        }
        for (k, route) in resource.routes.iter().enumerate() {
            for other in &resource.routes[k + 1..] {
                assert_ne!(route.0, other.0);
            }
        }
    }
}

#[test]
fn handlers_occur_once_but_for_one() {
    let mut handlers: Vec<Handler> = Vec::new();
    for resource in workspace_scope().resources {
        for (_, handler) in resource.routes {
            if handler != Handler::BatchGetCollab {
                assert!(!handlers.contains(&handler));
            }
            handlers.push(handler);
        }
    }
    assert_eq!(handlers.len(), 86);
}

#[test]
fn full_patterns_are_those_of_resources() {
    let scope = workspace_scope();
    for pattern in [
        WORKSPACE_PATTERN,
        WORKSPACE_MEMBER_PATTERN,
        WORKSPACE_INVITE_PATTERN,
        COLLAB_PATTERN,
        V1_COLLAB_PATTERN,
        WORKSPACE_PUBLISH_PATTERN,
        WORKSPACE_PUBLISH_NAMESPACE_PATTERN,
    ] {
        let routed = |rest: &str| format!("{}{}", scope.prefix, rest) == pattern;
        assert!(scope.resources.iter().any(|resource| routed(resource.pattern)));
    }
    assert_eq!(WORKSPACE_MEMBER_PATTERN, "/api/workspace/{workspace_id}/member");
    assert_eq!(WORKSPACE_ID_PATH, "workspace_id");
    assert_eq!(COLLAB_OBJECT_ID_PATH, "object_id");
}
