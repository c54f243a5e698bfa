use hurl_adapters_lib::formats::kdl::document::{KdlTree, KdlEntry, KdlNode, KdlValue};
use hurl_adapters_lib::formats::kdl::translate_to_string;

fn text(s: &str) -> KdlValue {
    KdlValue::String(s.to_string())
}

fn arg(v: KdlValue) -> KdlEntry {
    KdlEntry { name: None, value: v }
}

fn prop(name: &str, v: KdlValue) -> KdlEntry {
    KdlEntry { name: Some(name.to_string()), value: v }
}

fn line(name: &str, values: &[&str]) -> KdlNode {
    KdlNode {
        name: name.to_string(),
        entries: values.iter().map(|v| arg(text(v))).collect(),
        children: None,
    }
}

fn block(name: &str, entries: Vec<KdlEntry>, children: Vec<KdlNode>) -> KdlNode {
    KdlNode {
        name: name.to_string(),
        entries,
        children: Some(KdlTree { nodes: children }),
    }
}

fn status(code: i128) -> KdlNode {
    KdlNode { name: "status".to_string(), entries: vec![arg(KdlValue::Integer(code))], children: None }
}

fn step(method: &str, url: &str, name: Option<&str>, children: Vec<KdlNode>) -> KdlNode {
    let mut entries = vec![arg(text(url))];
    if let Some(n) = name {
        entries.push(prop("name", text(n)));
    }
    block(method, entries, children)
}

fn auth_header() -> KdlNode {
    block("headers", vec![], vec![line("Authorization", &["Bearer {{AUTH_TOKEN}}"])])
}

#[test]
fn test_crud_workflow() {
    let create = step(
        "POST",
        "https://api.example.com/posts",
        Some("create"),
        vec![
            block(
                "headers",
                vec![],
                vec![
                    line("Content-Type", &["application/json"]),
                    line("Authorization", &["Bearer {{AUTH_TOKEN}}"]),
                ],
            ),
            block(
                "body",
                vec![arg(text("json"))],
                vec![
                    line("title", &["My First Post"]),
                    line("content", &["Hello, World!"]),
                    KdlNode {
                        name: "published".to_string(),
                        entries: vec![arg(KdlValue::Bool(false))],
                        children: None,
                    },
                ],
            ),
            block(
                "expect",
                vec![],
                vec![
                    status(201),
                    block(
                        "captures",
                        vec![],
                        vec![
                            line("id", &["jsonpath", "$.id"]),
                            line("created_at", &["jsonpath", "$.created_at"]),
                        ],
                    ),
                    block(
                        "asserts",
                        vec![],
                        vec![
                            line("jsonpath", &["$.id", "exists"]),
                            line("jsonpath", &["$.title", "==", "My First Post"]),
                        ],
                    ),
                ],
            ),
        ],
    );
    let read = step(
        "GET",
        "https://api.example.com/posts/{{create.id}}",
        Some("read"),
        vec![
            auth_header(),
            block(
                "expect",
                vec![],
                vec![
                    status(200),
                    block(
                        "asserts",
                        vec![],
                        vec![
                            line("jsonpath", &["$.id", "==", "{{create.id}}"]),
                            line("jsonpath", &["$.title", "==", "My First Post"]),
                        ],
                    ),
                ],
            ),
        ],
    );
    let delete = step(
        "DELETE",
        "https://api.example.com/posts/{{create.id}}",
        None,
        vec![auth_header(), block("expect", vec![], vec![status(204)])],
    );
    let verify = step(
        "GET",
        "https://api.example.com/posts/{{create.id}}",
        None,
        vec![auth_header(), block("expect", vec![], vec![status(404)])],
    );
    let kdl = KdlTree { nodes: vec![create, read, delete, verify] };
    let expected = "POST https://api.example.com/posts
Content-Type: application/json
Authorization: Bearer {{AUTH_TOKEN}}
{
    \"title\": \"My First Post\",
    \"content\": \"Hello, World!\",
    \"published\": false
}
HTTP 201
[Captures]
create.id: jsonpath \"$.id\"
create.created_at: jsonpath \"$.created_at\"
[Asserts]
jsonpath \"$.id\" exists
jsonpath \"$.title\" == \"My First Post\"

GET https://api.example.com/posts/{{create.id}}
Authorization: Bearer {{AUTH_TOKEN}}
HTTP 200
[Asserts]
jsonpath \"$.id\" == {{create.id}}
jsonpath \"$.title\" == \"My First Post\"

DELETE https://api.example.com/posts/{{create.id}}
Authorization: Bearer {{AUTH_TOKEN}}
HTTP 204

GET https://api.example.com/posts/{{create.id}}
Authorization: Bearer {{AUTH_TOKEN}}
HTTP 404

";
    assert_eq!(translate_to_string(&kdl).unwrap(), expected);
}

#[test]
fn test_auth_flow() {
    let csrf = step(
        "GET",
        "https://app.example.com/login",
        Some("csrf"),
        vec![block(
            "expect",
            vec![],
            vec![
                status(200),
                block(
                    "captures",
                    vec![],
                    vec![line("token", &["regex", "csrf_token\" value=\"([^\"]+)\""])],
                ),
            ],
        )],
    );
    let auth = step(
        "POST",
        "https://app.example.com/login",
        Some("auth"),
        vec![
            block(
                "headers",
                vec![],
                vec![
                    line("Content-Type", &["application/x-www-form-urlencoded"]),
                    line("X-CSRF-Token", &["{{csrf.token}}"]),
                ],
            ),
            block(
                "form",
                vec![],
                vec![
                    line("username", &["admin"]),
                    line("password", &["{{ADMIN_PASSWORD}}"]),
                    line("csrf_token", &["{{csrf.token}}"]),
                ],
            ),
            block(
                "expect",
                vec![],
                vec![
                    status(302),
                    block(
                        "captures",
                        vec![],
                        vec![
                            line("session", &["cookie", "session_id"]),
                            line("redirect", &["header", "Location"]),
                        ],
                    ),
                ],
            ),
        ],
    );
    let dashboard = step(
        "GET",
        "{{auth.redirect}}",
        Some("dashboard"),
        vec![
            block("cookies", vec![], vec![line("session_id", &["{{auth.session}}"])]),
            block(
                "expect",
                vec![],
                vec![
                    status(200),
                    block(
                        "captures",
                        vec![],
                        vec![
                            line("user_id", &["jsonpath", "$.user.id"]),
                            line("permissions", &["jsonpath", "$.user.permissions"]),
                        ],
                    ),
                    block("asserts", vec![], vec![line("jsonpath", &["$.user.role", "==", "admin"])]),
                ],
            ),
        ],
    );
    let admin = step(
        "GET",
        "https://app.example.com/admin/users",
        None,
        vec![
            block("cookies", vec![], vec![line("session_id", &["{{auth.session}}"])]),
            block(
                "expect",
                vec![],
                vec![
                    status(200),
                    block(
                        "asserts",
                        vec![],
                        vec![
                            line("jsonpath", &["$.users", "isCollection"]),
                            line("jsonpath", &["$.users[0].id", "exists"]),
                        ],
                    ),
                ],
            ),
        ],
    );
    let kdl = KdlTree { nodes: vec![csrf, auth, dashboard, admin] };
    let expected = "GET https://app.example.com/login
HTTP 200
[Captures]
csrf.token: regex \"csrf_token\" value=\"([^\"]+)\"\"

POST https://app.example.com/login
Content-Type: application/x-www-form-urlencoded
X-CSRF-Token: {{csrf.token}}
[Form]
username: admin
password: {{ADMIN_PASSWORD}}
csrf_token: {{csrf.token}}
HTTP 302
[Captures]
auth.session: cookie \"session_id\"
auth.redirect: header \"Location\"

GET {{auth.redirect}}
[Cookies]
session_id: {{auth.session}}
HTTP 200
[Captures]
dashboard.user_id: jsonpath \"$.user.id\"
dashboard.permissions: jsonpath \"$.user.permissions\"
[Asserts]
jsonpath \"$.user.role\" == \"admin\"

GET https://app.example.com/admin/users
[Cookies]
session_id: {{auth.session}}
HTTP 200
[Asserts]
jsonpath \"$.users\" isCollection
jsonpath \"$.users[0].id\" exists

";
    assert_eq!(translate_to_string(&kdl).unwrap(), expected);
}
