use vstd::prelude::*;
use vstd::string::*;

use crate::error::RobotsTxtError;

verus! {

/// A path is accepted when it is non-empty and begins with `/`.
pub open spec fn valid_path(p: Seq<char>) -> bool {
    p.len() > 0 && p[0] == '/'
}

/// One rule of an agent block: a path that is allowed or disallowed.
#[derive(Debug)]
pub enum Directive {
    Allow(String),
    Disallow(String),
}

impl Directive {
    /// The path the rule applies to.
    pub open spec fn path_view(self) -> Seq<char> {
        match self {
            Directive::Allow(p) => p@,
            Directive::Disallow(p) => p@,
        }
    }

    /// Whether the rule is an `Allow` rule.
    pub open spec fn allows(self) -> bool {
        self is Allow
    }

    /// The line that the rule renders to, newline included.
    pub open spec fn line(self) -> Seq<char> {
        match self {
            Directive::Allow(p) => "Allow: "@ + p@ + "\n"@,
            Directive::Disallow(p) => "Disallow: "@ + p@ + "\n"@,
        }
    }

    /// Builds an `Allow` (when `allow`) or `Disallow` rule for `path`.
    /// The only check made is that the path starts with `/`; otherwise the
    /// path is handed back in `InvalidPath`.
    pub fn new(path: String, allow: bool) -> (r: Result<Directive, RobotsTxtError>)
        ensures
            r is Ok <==> valid_path(path@),
            r matches Ok(d) ==> d.path_view() == path@ && d.allows() == allow,
            r matches Err(e) ==> e matches RobotsTxtError::InvalidPath(p) && p@ == path@,
    {
        let starts_with_slash = !path.as_str().is_empty() && path.as_str().get_char(0) == '/';
        if starts_with_slash {
            if allow {
                Ok(Directive::Allow(path))
            } else {
                Ok(Directive::Disallow(path))
            }
        } else {
            Err(RobotsTxtError::InvalidPath(path))
        }
    }

    /// The rendered line of the rule, ending in a newline.
    pub fn render(&self) -> (r: String)
        ensures
            r@ == self.line(),
    {
        match self {
            Directive::Allow(p) => {
                let mut r = String::from_str("Allow: ");
                r.append(p.as_str());
                r.append("\n");
                r
            },
            Directive::Disallow(p) => {
                let mut r = String::from_str("Disallow: ");
                r.append(p.as_str());
                r.append("\n");
                r
            },
        }
    }
}

} // verus!
