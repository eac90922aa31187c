//! Routing of a request to its endpoint, by method and exact path.

use crate::text::str_eq;
use vstd::prelude::*;
use vstd::string::*;

verus! {

/// The endpoint that a request is for.
#[derive(Clone, Copy, Debug, PartialEq, Eq, Structural)]
pub enum Route {
    /// A cross-origin preflight, answered for every path.
    Preflight,
    ComputerPreview,
    ComputerExecute,
    ShellPreview,
    ShellExecute,
    AutopilotCapture,
    AutopilotAct,
    AutopilotPermissions,
    /// No endpoint has this method and path.
    NotFound,
}

/// The endpoint named by a method and a path. The method `OPTIONS` is a
/// preflight whatever the path; otherwise method and path must both match an
/// endpoint exactly.
pub open spec fn route_of(method: Seq<char>, path: Seq<char>) -> Route {
    if method == "OPTIONS"@ {
        Route::Preflight
    } else if method == "POST"@ && path == "/computer/preview"@ {
        Route::ComputerPreview
    } else if method == "POST"@ && path == "/computer/execute"@ {
        Route::ComputerExecute
    } else if method == "POST"@ && path == "/shell/preview"@ {
        Route::ShellPreview
    } else if method == "POST"@ && path == "/shell/execute"@ {
        Route::ShellExecute
    } else if method == "POST"@ && path == "/autopilot/capture"@ {
        Route::AutopilotCapture
    } else if method == "POST"@ && path == "/autopilot/act"@ {
        Route::AutopilotAct
    } else if method == "GET"@ && path == "/autopilot/permissions"@ {
        Route::AutopilotPermissions
    } else {
        Route::NotFound
    }
}

/// Finds the endpoint for a request's method and path.
pub fn route(method: &str, path: &str) -> (r: Route)
    ensures
        r == route_of(method@, path@),
{
    if str_eq(method, "OPTIONS") {
        return Route::Preflight;
    }
    if str_eq(method, "POST") {
        if str_eq(path, "/computer/preview") {
            Route::ComputerPreview
        } else if str_eq(path, "/computer/execute") {
            Route::ComputerExecute
        } else if str_eq(path, "/shell/preview") {
            Route::ShellPreview
        } else if str_eq(path, "/shell/execute") {
            Route::ShellExecute
        } else if str_eq(path, "/autopilot/capture") {
            Route::AutopilotCapture
        } else if str_eq(path, "/autopilot/act") {
            Route::AutopilotAct
        } else {
            proof {
                lemma_methods_differ();
            }
            Route::NotFound
        }
    } else if str_eq(method, "GET") && str_eq(path, "/autopilot/permissions") {
        Route::AutopilotPermissions
    } else {
        Route::NotFound
    }
}

/// The three methods that the bridge knows are pairwise different.
pub proof fn lemma_methods_differ()
    ensures
        "OPTIONS"@ != "POST"@,
        "OPTIONS"@ != "GET"@,
        "POST"@ != "GET"@,
{
    reveal_strlit("OPTIONS");
    reveal_strlit("POST");
    reveal_strlit("GET");
    assert("OPTIONS"@.len() == 7);
    assert("POST"@.len() == 4);
    assert("GET"@.len() == 3);
}

/// A request with the method `OPTIONS` is a preflight, whatever its path.
pub proof fn lemma_options_is_preflight(path: Seq<char>)
    ensures
        route_of("OPTIONS"@, path) == Route::Preflight,
{
}

/// Each endpoint is reached by one method and one path only: routing matches
/// the whole path, never a prefix of it.
pub proof fn lemma_routes_exact(method: Seq<char>, path: Seq<char>)
    ensures
        route_of(method, path) == Route::Preflight <==> method == "OPTIONS"@,
        route_of(method, path) == Route::ComputerPreview <==> method == "POST"@ && path
            == "/computer/preview"@,
        route_of(method, path) == Route::ComputerExecute <==> method == "POST"@ && path
            == "/computer/execute"@,
        route_of(method, path) == Route::ShellPreview <==> method == "POST"@ && path
            == "/shell/preview"@,
        route_of(method, path) == Route::ShellExecute <==> method == "POST"@ && path
            == "/shell/execute"@,
        route_of(method, path) == Route::AutopilotCapture <==> method == "POST"@ && path
            == "/autopilot/capture"@,
        route_of(method, path) == Route::AutopilotAct <==> method == "POST"@ && path
            == "/autopilot/act"@,
        route_of(method, path) == Route::AutopilotPermissions <==> method == "GET"@ && path
            == "/autopilot/permissions"@,
{
    lemma_methods_differ();
    reveal_strlit("/computer/preview");
    reveal_strlit("/computer/execute");
    reveal_strlit("/shell/preview");
    reveal_strlit("/shell/execute");
    reveal_strlit("/autopilot/capture");
    reveal_strlit("/autopilot/act");
    reveal_strlit("/autopilot/permissions");
    assert("/computer/preview"@[10] != "/computer/execute"@[10]);
    assert("/shell/preview"@[7] != "/shell/execute"@[7]);
    assert("/computer/preview"@[1] != "/shell/preview"@[1]);
    assert("/computer/preview"@[1] != "/autopilot/capture"@[1]);
    assert("/shell/preview"@[1] != "/autopilot/capture"@[1]);
    assert("/autopilot/capture"@.len() == 18);
    assert("/autopilot/act"@.len() == 14);
    assert("/shell/execute"@.len() == 14);
    assert("/computer/execute"@.len() == 17);
    assert("/computer/preview"@.len() == 17);
    assert("/shell/preview"@.len() == 14);
    assert("/shell/preview"@[1] != "/autopilot/act"@[1]);
    assert("/shell/execute"@[1] != "/autopilot/act"@[1]);
}

} // verus!
