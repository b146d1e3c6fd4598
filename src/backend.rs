use vstd::prelude::*;

use crate::error::McpError;
use crate::text::{is_prefix, join2, starts_with, str_eq, vec_has, seq_has};

verus! {

/// Operations that change nothing on the Docker host.
pub open spec fn read_only_operation(op: Seq<char>) -> bool {
    ||| op == "list_containers"@
    ||| op == "container_logs"@
    ||| op == "list_images"@
    ||| op == "get_docker_info"@
    ||| op == "get_docker_version"@
    ||| op == "get_container_details"@
    ||| op == "get_image_details"@
    ||| op == "get_compose_status"@
    ||| op == "validate_compose"@
}

pub fn is_read_only_operation(op: &str) -> (r: bool)
    ensures
        r == read_only_operation(op@),
{
    str_eq(op, "list_containers") || str_eq(op, "container_logs") || str_eq(op, "list_images")
        || str_eq(op, "get_docker_info") || str_eq(op, "get_docker_version") || str_eq(
        op,
        "get_container_details",
    ) || str_eq(op, "get_image_details") || str_eq(op, "get_compose_status") || str_eq(
        op,
        "validate_compose",
    )
}

/// In read-only mode only operations that change nothing may run.
pub fn check_read_only(read_only: bool, op: &str) -> (r: Result<(), McpError>)
    ensures
        r is Err <==> read_only && !read_only_operation(op@),
        r is Err ==> (r->Err_0 matches McpError::OperationNotPermitted(m) && m@
            == "Server is in read-only mode"@),
{
    if read_only && !is_read_only_operation(op) {
        return Err(McpError::OperationNotPermitted("Server is in read-only mode".to_string()));
    }
    Ok(())
}

/// A compose project may be used: any when no allow list is configured.
pub fn check_compose_project(allowed: &Option<Vec<String>>, dir: &str) -> (r: Result<
    (),
    McpError,
>)
    ensures
        r is Err <==> allowed is Some && !seq_has(allowed.unwrap()@, dir@),
        r is Err ==> (r->Err_0 matches McpError::OperationNotPermitted(m) && m@
            == "Project directory '"@ + dir@ + "' is not in the allowed list"@),
{
    match allowed {
        Some(list) => {
            if !vec_has(list, dir) {
                let mut m = join2("Project directory '", dir);
                m.append("' is not in the allowed list");
                return Err(McpError::OperationNotPermitted(m));
            }
        },
        None => {},
    }
    Ok(())
}

/// The position of the only `=` in `s`.
pub open spec fn single_equals_at(s: Seq<char>, k: int) -> bool {
    &&& 0 <= k < s.len()
    &&& s[k] == '='
    &&& forall|j: int| 0 <= j < s.len() && j != k ==> #[trigger] s[j] != '='
}

/// A filter `key=value`: with exactly one `=`, the text before it and after it.
pub fn parse_filter(s: &str) -> (r: Option<(String, String)>)
    ensures
        r is None <==> !exists|k: int| single_equals_at(s@, k),
        r is Some ==> exists|k: int|
            single_equals_at(s@, k) && r.unwrap().0@ == s@.subrange(0, k) && r.unwrap().1@
                == s@.subrange(k + 1, s@.len() as int),
{
    let n = s.unicode_len();
    let mut found: Option<usize> = None;
    let mut i: usize = 0;
    while i < n
        invariant
            n == s@.len(),
            i <= n,
            found is None ==> forall|j: int| 0 <= j < i ==> #[trigger] s@[j] != '=',
            found is Some ==> found.unwrap() < i && s@[found.unwrap() as int] == '=' && forall|
                j: int,
            | 0 <= j < i && j != found.unwrap() ==> #[trigger] s@[j] != '=',
        decreases n - i,
    {
        if s.get_char(i) == '=' {
            if found.is_some() {
                let k = found.unwrap();
                assert forall|k2: int| !single_equals_at(s@, k2) by {
                    if single_equals_at(s@, k2) {
                        if k2 == k {
                            assert(s@[i as int] == '=');
                        } else {
                            assert(s@[k as int] == '=');
                        }
                    }
                }
                return None;
            }
            found = Some(i);
        }
        i = i + 1;
    }
    match found {
        None => {
            assert forall|k2: int| !single_equals_at(s@, k2) by {
                if single_equals_at(s@, k2) {
                    assert(s@[k2] == '=');
                }
            }
            None
        },
        Some(k) => {
            assert(single_equals_at(s@, k as int));
            let key = s.substring_char(0, k).to_string();
            let value = s.substring_char(k + 1, n).to_string();
            Some((key, value))
        },
    }
}

/// The arguments of `docker-compose up`.
pub fn compose_up_args(detach: bool, services: &Vec<String>) -> (r: Vec<String>)
    ensures
        r@.len() == (if detach { 2int } else { 1int }) + services@.len(),
        r@[0]@ == "up"@,
        detach ==> r@[1]@ == "-d"@,
        forall|i: int|
            0 <= i < services@.len() ==> r@[i + (if detach { 2int } else { 1int })]
                == #[trigger] services@[i],
{
    let mut args: Vec<String> = Vec::new();
    args.push("up".to_string());
    if detach {
        args.push("-d".to_string());
    }
    let base = args.len();
    let mut i: usize = 0;
    while i < services.len()
        invariant
            base == (if detach { 2int } else { 1int }),
            i <= services@.len(),
            args@.len() == base + i,
            args@[0]@ == "up"@,
            detach ==> args@[1]@ == "-d"@,
            forall|j: int| 0 <= j < i ==> args@[j + base] == #[trigger] services@[j],
        decreases services@.len() - i,
    {
        args.push(services[i].clone());
        i = i + 1;
    }
    args
}

/// The arguments of `docker-compose down`: `-v` to remove volumes, and
/// `--rmi all` or `--rmi local` when images are to go; any other image choice
/// is ignored.
pub fn compose_down_args(volumes: bool, remove_images: Option<&str>) -> (r: Vec<String>)
    ensures
        r@.len() >= 1 && r@[0]@ == "down"@,
        r@.len() == 1 + (if volumes { 1int } else { 0int }) + match remove_images {
            Some(m) => if m@ == "all"@ || m@ == "local"@ {
                2int
            } else {
                0int
            },
            None => 0int,
        },
        volumes ==> r@[1]@ == "-v"@,
        remove_images is Some && (remove_images.unwrap()@ == "all"@ || remove_images.unwrap()@
            == "local"@) ==> r@[r@.len() - 2]@ == "--rmi"@ && r@[r@.len() - 1]@
            == remove_images.unwrap()@,
{
    let mut args: Vec<String> = Vec::new();
    args.push("down".to_string());
    if volumes {
        args.push("-v".to_string());
    }
    match remove_images {
        Some(m) => {
            if str_eq(m, "all") || str_eq(m, "local") {
                args.push("--rmi".to_string());
                args.push(m.to_string());
            }
        },
        None => {},
    }
    args
}

/// The captured output of a command: its standard output and its standard
/// error, each under a heading, each only when not empty.
pub open spec fn combined_output(stdout: Seq<char>, stderr: Seq<char>) -> Seq<char> {
    let out = if stdout.len() > 0 {
        "STDOUT:\n"@ + stdout
    } else {
        Seq::empty()
    };
    if stderr.len() == 0 {
        out
    } else if out.len() > 0 {
        out + "\n"@ + "STDERR:\n"@ + stderr
    } else {
        out + "STDERR:\n"@ + stderr
    }
}

pub fn combine_output(stdout: &str, stderr: &str) -> (r: String)
    ensures
        r@ == combined_output(stdout@, stderr@),
{
    let mut result = String::new();
    if stdout.unicode_len() > 0 {
        result.append("STDOUT:\n");
        result.append(stdout);
    }
    if stderr.unicode_len() > 0 {
        if result.as_str().unicode_len() > 0 {
            result.append("\n");
        }
        result.append("STDERR:\n");
        result.append(stderr);
    }
    result
}

/// How the Docker daemon is reached.
#[derive(Debug, Clone, Copy, PartialEq, Eq, Structural)]
pub enum DockerEndpoint {
    Unix,
    NamedPipe,
    Http,
}

/// The endpoint kind a host address names, by its scheme.
pub fn endpoint_kind(host: &str) -> (r: DockerEndpoint)
    ensures
        is_prefix("unix://"@, host@) ==> r == DockerEndpoint::Unix,
        !is_prefix("unix://"@, host@) && is_prefix("npipe://"@, host@) ==> r
            == DockerEndpoint::NamedPipe,
        !is_prefix("unix://"@, host@) && !is_prefix("npipe://"@, host@) ==> r
            == DockerEndpoint::Http,
{
    if starts_with(host, "unix://") {
        DockerEndpoint::Unix
    } else if starts_with(host, "npipe://") {
        DockerEndpoint::NamedPipe
    } else {
        DockerEndpoint::Http
    }
}

} // verus!
