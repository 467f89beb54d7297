use octerm::github::events::EventKind;
use octerm::github::{Issue, IssueMeta, IssueState, RepoMeta, User};
use octerm::markdown::{Markdown, MdBlock};
use octerm::timeline::Block;
use octerm::views::TargetView;

/// 2022-04-12 03:45:23 UTC, in seconds since the Unix epoch.
const DATE: i64 = 1649735123;
const DAY: i64 = 86400;

const WORKAROUND: &str = r#"As a workaround you can specify a config for the lsp in the languaguages.toml. 
Example:
```
[[language]]
name = "scala"
scope = "source.scala"
roots = ["build.sbt", "pom.xml"]
file-types = ["scala", "sbt"]
comment-token = "//"
indent = { tab-width = 2, unit = "  " }
language-server = { command = "metals" }
config = {metals.ammoniteJvmProperties = ["-Xmx1G"]}
```
"#;

/// The issue that the viewer of a single issue shows.
fn fake_issue() -> Issue {
    Issue {
        meta: IssueMeta {
            repo: RepoMeta { name: "helix".into(), owner: "helix-editor".into() },
            title: "This is the issue title".into(),
            body: r#"The distinction between mouse select and <space>y isn't very clear:
- Mouse: `yanked main selection to system clipboard`
- Space + y: `joined and yanked 1 selection(s) to system clipboard`

It is not clear from this prompt that one of them goes to the middle click clipboard yet the other one goes to the normal (Ctrl+C/V) clipboard. Does anyone know what's the correct term for not only X (which I know are clipboard and primary) but also Wayland? (Maybe we just call them "system clipboard" and "system selection clipboard"? Also, the `joined and yanked 1 selections(s)` is unnecessary. Simply `yanked selection to system clipboard` would do.
"#
            .into(),
            number: 1045,
            author: User::new("username"),
            state: IssueState::Open,
            created_at: DATE,
        },
        events: vec![
            EventKind::Commented { body: WORKAROUND.into() }.with(User::new("issue-author"), DATE + DAY),
            EventKind::Commented {
                body: "Just a heads up, we've fixed this in Metals.\
You can test with the latest snapshot to see this working `0.11.9+128-92db24b7-SNAPSHOT`.\
"
                .into(),
            }
            .with(User::new("replier"), DATE + 2 * DAY),
            EventKind::Commented { body: WORKAROUND.into() }.with(User::new("issue-author"), DATE + 3 * DAY),
        ],
    }
}

#[test]
fn tester_issue_view() {
    let view = TargetView::from_issue(fake_issue());
    let header: String = view.header.iter().map(|s| s.text.clone()).collect();
    assert_eq!(header, " Open  This is the issue title #1045");
    let authors: Vec<String> = view
        .timeline
        .blocks
        .iter()
        .step_by(2)
        .map(|b| match b {
            Block::Comment(c) => c.header.text.clone(),
            _ => panic!("every event of the fake issue is a comment"),
        })
        .collect();
    assert_eq!(authors, vec![" @username", " @issue-author", " @replier", " @issue-author"]);
}

#[test]
fn tester_comment_markdown() {
    let md = Markdown::new(WORKAROUND);
    let code: Vec<&String> = md
        .blocks
        .iter()
        .filter_map(|b| match b {
            MdBlock::Code(code) => Some(code),
            _ => None,
        })
        .collect();
    assert_eq!(code.len(), 1);
    assert!(code[0].starts_with("[[language]]\nname = \"scala\"\n"));
    assert!(code[0].ends_with("config = {metals.ammoniteJvmProperties = [\"-Xmx1G\"]}\n"));
}
