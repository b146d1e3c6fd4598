use vstd::prelude::*;

use crate::error::McpError;
use crate::protocol::{GetPromptResult, PromptContent, PromptMessage};
use crate::text::str_eq;

verus! {

/// The value of the first argument named `key`.
pub open spec fn arg_of(args: Seq<(String, String)>, key: Seq<char>) -> Option<Seq<char>>
    decreases args.len(),
{
    if args.len() == 0 {
        None
    } else if args[0].0@ == key {
        Some(args[0].1@)
    } else {
        arg_of(args.drop_first(), key)
    }
}

/// The argument `key`, where arguments were given at all.
pub open spec fn opt_arg(args: Option<Vec<(String, String)>>, key: Seq<char>) -> Option<Seq<char>> {
    match args {
        Some(a) => arg_of(a@, key),
        None => None,
    }
}

/// A yes/no argument: `yes` when absent.
pub open spec fn flag_arg(args: Option<Vec<(String, String)>>, key: Seq<char>) -> bool {
    match opt_arg(args, key) {
        Some(v) => v == "yes"@,
        None => true,
    }
}

/// The first argument named `key`.
pub fn find_arg<'a>(args: &'a Vec<(String, String)>, key: &str) -> (r: Option<&'a String>)
    ensures
        r is Some <==> arg_of(args@, key@) is Some,
        r is Some ==> r.unwrap()@ == arg_of(args@, key@).unwrap(),
{
    let mut i: usize = 0;
    assert(args@.subrange(0, args@.len() as int) == args@);
    while i < args.len()
        invariant
            i <= args@.len(),
            arg_of(args@, key@) == arg_of(args@.subrange(i as int, args@.len() as int), key@),
        decreases args@.len() - i,
    {
        let ghost rest = args@.subrange(i as int, args@.len() as int);
        assert(rest.drop_first() == args@.subrange(i + 1, args@.len() as int));
        if str_eq(args[i].0.as_str(), key) {
            return Some(&args[i].1);
        }
        i = i + 1;
    }
    None
}

/// The argument `key` of an optional argument list.
pub fn get_arg<'a>(args: &'a Option<Vec<(String, String)>>, key: &str) -> (r: Option<&'a String>)
    ensures
        r is Some <==> opt_arg(*args, key@) is Some,
        r is Some ==> r.unwrap()@ == opt_arg(*args, key@).unwrap(),
{
    match args {
        Some(a) => find_arg(a, key),
        None => None,
    }
}

/// Whether the yes/no argument `key` says yes.
pub fn get_flag(args: &Option<Vec<(String, String)>>, key: &str) -> (r: bool)
    ensures
        r == flag_arg(*args, key@),
{
    match get_arg(args, key) {
        Some(v) => str_eq(v.as_str(), "yes"),
        None => true,
    }
}

/// The request text of the Dockerfile prompt.
pub open spec fn dockerfile_text(app: Seq<char>, version: Seq<char>, production: bool) -> Seq<char> {
    let head = "Generate an optimized Dockerfile for a "@ + app + " application"@;
    let with_version = if version != "latest"@ {
        head + ", using version "@ + version
    } else {
        head
    };
    let body = if production {
        with_version + ", optimized for production use."@ + "\n\nThe Dockerfile should include:"@
            + "\n- Multi-stage builds for smaller final image"@
            + "\n- Proper security practices (non-root user, minimal permissions)"@
            + "\n- Optimization for caching during builds"@
            + "\n- Health checks and proper signal handling"@
    } else {
        with_version + ", configured for development."@ + "\n\nThe Dockerfile should include:"@
            + "\n- Fast rebuilds and good developer experience"@
            + "\n- Volume mounting for code changes"@ + "\n- Debugging tools included"@
    };
    body + "\n\nPlease include comments explaining key decisions."@
}

/// The description of the Dockerfile prompt.
pub open spec fn dockerfile_description(app: Seq<char>, production: bool) -> Seq<char> {
    "Optimized Dockerfile for "@ + (if production {
        "production"@
    } else {
        "development"@
    }) + " "@ + app + " application"@
}

/// The request text of the Compose prompt.
pub open spec fn compose_text(scenario: Seq<char>, services: Seq<char>, volumes: bool) -> Seq<char> {
    let head = "Generate a Docker Compose configuration for a "@ + scenario + " scenario"@
        + " that includes the following services: "@ + services + "."@;
    let with_volumes = if volumes {
        head
            + "\n\nInclude persistent volumes for data that should be preserved across container restarts."@
    } else {
        head
    };
    with_volumes + "\n\nThe configuration should include:"@
        + "\n- Proper networking between services"@
        + "\n- Environment variables for configuration"@ + "\n- Health checks where appropriate"@
        + "\n- Restart policies for reliability"@
        + "\n\nPlease include comments explaining the purpose of each service and any important configuration details."@
}

/// The description of the Compose prompt.
pub open spec fn compose_description(scenario: Seq<char>, services: Seq<char>) -> Seq<char> {
    "Docker Compose configuration for "@ + scenario + " scenario with services: "@ + services
}

/// A prompt result with one user message holding `text`.
pub open spec fn is_single_user_text(r: GetPromptResult, text: Seq<char>, desc: Seq<char>) -> bool {
    &&& r.description is Some
    &&& r.description.unwrap()@ == desc
    &&& r.messages@.len() == 1
    &&& r.messages@[0].role@ == "user"@
    &&& r.messages@[0].content.kind@ == "text"@
    &&& r.messages@[0].content.text is Some
    &&& r.messages@[0].content.text.unwrap()@ == text
    &&& r.messages@[0].content.resource is None
}

fn single_user_text(text: String, desc: String) -> (r: GetPromptResult)
    ensures
        is_single_user_text(r, text@, desc@),
{
    let message = PromptMessage {
        role: "user".to_string(),
        content: PromptContent { kind: "text".to_string(), text: Some(text), resource: None },
    };
    let mut messages = Vec::new();
    messages.push(message);
    GetPromptResult { description: Some(desc), messages }
}

/// The Dockerfile prompt: `app_type` is required, `version` defaults to
/// `latest`, `production` to `yes`.
pub fn generate_dockerfile_prompt(args: &Option<Vec<(String, String)>>) -> (r: Result<
    GetPromptResult,
    McpError,
>)
    ensures
        r is Err <==> opt_arg(*args, "app_type"@) is None,
        r is Err ==> (r->Err_0 matches McpError::InvalidParams(m) && m@
            == "Missing required argument 'app_type'"@),
        r is Ok ==> {
            let app = opt_arg(*args, "app_type"@).unwrap();
            let version = match opt_arg(*args, "version"@) {
                Some(v) => v,
                None => "latest"@,
            };
            let production = flag_arg(*args, "production"@);
            is_single_user_text(
                r->Ok_0,
                dockerfile_text(app, version, production),
                dockerfile_description(app, production),
            )
        },
{
    let app_type = match get_arg(args, "app_type") {
        Some(a) => a,
        None => {
            return Err(
                McpError::InvalidParams("Missing required argument 'app_type'".to_string()),
            );
        },
    };
    let version: &str = match get_arg(args, "version") {
        Some(v) => v.as_str(),
        None => "latest",
    };
    let production = get_flag(args, "production");
    let mut text = "Generate an optimized Dockerfile for a ".to_string();
    text.append(app_type.as_str());
    text.append(" application");
    if !str_eq(version, "latest") {
        text.append(", using version ");
        text.append(version);
    }
    if production {
        text.append(", optimized for production use.");
        text.append("\n\nThe Dockerfile should include:");
        text.append("\n- Multi-stage builds for smaller final image");
        text.append("\n- Proper security practices (non-root user, minimal permissions)");
        text.append("\n- Optimization for caching during builds");
        text.append("\n- Health checks and proper signal handling");
    } else {
        text.append(", configured for development.");
        text.append("\n\nThe Dockerfile should include:");
        text.append("\n- Fast rebuilds and good developer experience");
        text.append("\n- Volume mounting for code changes");
        text.append("\n- Debugging tools included");
    }
    text.append("\n\nPlease include comments explaining key decisions.");
    let mut desc = "Optimized Dockerfile for ".to_string();
    if production {
        desc.append("production");
    } else {
        desc.append("development");
    }
    desc.append(" ");
    desc.append(app_type.as_str());
    desc.append(" application");
    Ok(single_user_text(text, desc))
}

/// The Compose prompt: `scenario` and `services` are required, `with_volumes`
/// defaults to `yes`.
pub fn generate_compose_prompt(args: &Option<Vec<(String, String)>>) -> (r: Result<
    GetPromptResult,
    McpError,
>)
    ensures
        r is Err <==> opt_arg(*args, "scenario"@) is None || opt_arg(*args, "services"@) is None,
        opt_arg(*args, "scenario"@) is None ==> (r matches Err(McpError::InvalidParams(m)) && m@
            == "Missing required argument 'scenario'"@),
        opt_arg(*args, "scenario"@) is Some && opt_arg(*args, "services"@) is None ==> (r matches Err(
            McpError::InvalidParams(m),
        ) && m@ == "Missing required argument 'services'"@),
        r is Ok ==> {
            let scenario = opt_arg(*args, "scenario"@).unwrap();
            let services = opt_arg(*args, "services"@).unwrap();
            is_single_user_text(
                r->Ok_0,
                compose_text(scenario, services, flag_arg(*args, "with_volumes"@)),
                compose_description(scenario, services),
            )
        },
{
    let scenario = match get_arg(args, "scenario") {
        Some(a) => a,
        None => {
            return Err(
                McpError::InvalidParams("Missing required argument 'scenario'".to_string()),
            );
        },
    };
    let services = match get_arg(args, "services") {
        Some(a) => a,
        None => {
            return Err(
                McpError::InvalidParams("Missing required argument 'services'".to_string()),
            );
        },
    };
    let with_volumes = get_flag(args, "with_volumes");
    let mut text = "Generate a Docker Compose configuration for a ".to_string();
    text.append(scenario.as_str());
    text.append(" scenario");
    text.append(" that includes the following services: ");
    text.append(services.as_str());
    text.append(".");
    if with_volumes {
        text.append(
            "\n\nInclude persistent volumes for data that should be preserved across container restarts.",
        );
    }
    text.append("\n\nThe configuration should include:");
    text.append("\n- Proper networking between services");
    text.append("\n- Environment variables for configuration");
    text.append("\n- Health checks where appropriate");
    text.append("\n- Restart policies for reliability");
    text.append(
        "\n\nPlease include comments explaining the purpose of each service and any important configuration details.",
    );
    let mut desc = "Docker Compose configuration for ".to_string();
    desc.append(scenario.as_str());
    desc.append(" scenario with services: ");
    desc.append(services.as_str());
    Ok(single_user_text(text, desc))
}

} // verus!
