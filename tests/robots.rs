use robots_txt::agent::Agent;
use robots_txt::directive::Directive;
use robots_txt::error::RobotsTxtError;
use robots_txt::robots::RobotsTxt;

fn directive(path: &str, allow: bool) -> Directive {
    match Directive::new(path.to_string(), allow) {
        Ok(d) => d,
        Err(e) => panic!("unexpected error: {}", e.message()),
    }
}

#[test]
fn single_agent_with_sitemap() {
    let mut doc = RobotsTxt::new();
    let mut a = Agent::new("*".to_string());
    a.add_directive(directive("/admin", false));
    a.add_directive(directive("/admin/public", true));
    assert!(doc.add_agent(a).is_ok());
    doc.add_sitemap(Some("https://example.com/sitemap.xml".to_string()));
    assert_eq!(
        doc.render(),
        "User-agent: *\nDisallow: /admin\nAllow: /admin/public\n\nSitemap: https://example.com/sitemap.xml\n"
    );
}

#[test]
fn duplicate_agent_rejected() {
    let mut doc = RobotsTxt::new();
    assert!(doc.add_agent(Agent::new("bot".to_string())).is_ok());
    let r = doc.add_agent(Agent::new("bot".to_string()));
    assert!(matches!(r, Err(RobotsTxtError::DuplicateAgentName(ref n)) if n == "bot"));
    assert_eq!(doc.agent_count(), 1);
    assert_eq!(doc.agent(0).name(), "bot");
}

#[test]
fn duplicate_name_is_case_sensitive() {
    let mut doc = RobotsTxt::new();
    assert!(doc.add_agent(Agent::new("bot".to_string())).is_ok());
    assert!(doc.add_agent(Agent::new("Bot".to_string())).is_ok());
    assert_eq!(doc.agent_count(), 2);
}

#[test]
fn rejected_agent_leaves_text() {
    let mut doc = RobotsTxt::new();
    let mut a = Agent::new("bot".to_string());
    a.add_directive(directive("/x", false));
    assert!(doc.add_agent(a).is_ok());
    let before = doc.render();
    let mut b = Agent::new("bot".to_string());
    b.add_directive(directive("/y", true));
    assert!(doc.add_agent(b).is_err());
    assert_eq!(doc.render(), before);
    assert_eq!(doc.agent_count(), 1);
}

#[test]
fn path_without_slash_rejected() {
    let r = Directive::new("admin".to_string(), true);
    assert!(matches!(r, Err(RobotsTxtError::InvalidPath(ref p)) if p == "admin"));
}

#[test]
fn empty_path_rejected() {
    let r = Directive::new(String::new(), false);
    assert!(matches!(r, Err(RobotsTxtError::InvalidPath(ref p)) if p.is_empty()));
}

#[test]
fn path_is_not_trimmed() {
    let r = Directive::new(" /admin".to_string(), false);
    assert!(matches!(r, Err(RobotsTxtError::InvalidPath(ref p)) if p == " /admin"));
}

#[test]
fn slash_path_accepted_with_requested_variant() {
    assert!(matches!(Directive::new("/".to_string(), true), Ok(Directive::Allow(ref p)) if p == "/"));
    assert!(matches!(Directive::new("/a b".to_string(), false), Ok(Directive::Disallow(ref p)) if p == "/a b"));
}

#[test]
fn directive_lines() {
    assert_eq!(directive("/a", true).render(), "Allow: /a\n");
    assert_eq!(directive("/b", false).render(), "Disallow: /b\n");
}

#[test]
fn directives_keep_order_and_duplicates() {
    let mut a = Agent::new("crawler".to_string());
    a.add_directive(directive("/z", true));
    a.add_directive(directive("/a", false));
    a.add_directive(directive("/z", true));
    assert_eq!(a.directive_count(), 3);
    assert_eq!(a.render(), "User-agent: crawler\nAllow: /z\nDisallow: /a\nAllow: /z\n");
}

#[test]
fn empty_agent_name_allowed() {
    let a = Agent::new(String::new());
    assert_eq!(a.render(), "User-agent: \n");
    let mut doc = RobotsTxt::new();
    assert!(doc.add_agent(a).is_ok());
}

#[test]
fn agents_rendered_without_blank_lines() {
    let mut doc = RobotsTxt::new();
    let mut a = Agent::new("a".to_string());
    a.add_directive(directive("/1", false));
    let mut b = Agent::new("b".to_string());
    b.add_directive(directive("/2", true));
    assert!(doc.add_agent(a).is_ok());
    assert!(doc.add_agent(b).is_ok());
    assert_eq!(doc.render(), "User-agent: a\nDisallow: /1\nUser-agent: b\nAllow: /2\n");
}

#[test]
fn sitemap_set_then_cleared() {
    let mut doc = RobotsTxt::new();
    let mut a = Agent::new("*".to_string());
    a.add_directive(directive("/private", false));
    assert!(doc.add_agent(a).is_ok());
    doc.add_sitemap(Some("https://example.com/s.xml".to_string()));
    assert!(doc.sitemap().is_some());
    doc.add_sitemap(None);
    assert!(doc.sitemap().is_none());
    let text = doc.render();
    assert_eq!(text, "User-agent: *\nDisallow: /private\n");
    assert!(!text.contains("Sitemap:"));
}

#[test]
fn render_twice_is_identical() {
    let mut doc = RobotsTxt::new();
    let mut a = Agent::new("*".to_string());
    a.add_directive(directive("/x", false));
    assert!(doc.add_agent(a).is_ok());
    doc.add_sitemap(Some("u".to_string()));
    let first = doc.render();
    let second = doc.render();
    assert_eq!(first, second);
}

#[test]
fn empty_document_renders_empty() {
    let doc = RobotsTxt::new();
    assert_eq!(doc.agent_count(), 0);
    assert_eq!(doc.render(), "");
}

#[test]
fn sitemap_only_document() {
    let mut doc = RobotsTxt::new();
    doc.add_sitemap(Some("https://example.com/map.xml".to_string()));
    assert_eq!(doc.sitemap().map(|s| s.as_str()), Some("https://example.com/map.xml"));
    assert_eq!(doc.render(), "\nSitemap: https://example.com/map.xml\n");
}

#[test]
fn has_agent_matches_names() {
    let mut doc = RobotsTxt::new();
    assert!(!doc.has_agent(&"bot".to_string()));
    assert!(doc.add_agent(Agent::new("bot".to_string())).is_ok());
    assert!(doc.has_agent(&"bot".to_string()));
    assert!(!doc.has_agent(&"bo".to_string()));
}

#[test]
fn error_messages() {
    let e = RobotsTxtError::DuplicateAgentName("bot".to_string());
    assert_eq!(e.message(), "Hey, dingus... there's already a bot block");
    let e = RobotsTxtError::InvalidPath("admin".to_string());
    assert_eq!(
        e.message(),
        "a valid path must start with a forward slash (/), admin is not valid"
    );
}
