//! The top of the page, which is known before the body is rendered: the
//! fixed head and the front matter.

use vstd::prelude::*;
use vstd::string::StringExecFns;
use crate::front_matter::{front_matter, front_matter_markup, pairs, Keyword};

verus! {

/// The head of every page: the stylesheet and the set-up of the formula
/// renderer. It does not depend on the document.
pub const HTML_HEAD: &'static str = r"<head>
<link rel='stylesheet' href='./assets/latex.css'>
<script src='https://kit.fontawesome.com/76c5ce8bda.js' crossorigin='anonymous'></script>
<script type='text/x-mathjax-config'>
    MathJax.Hub.Config({
        displayAlign: 'center',
        displayIndent: '0em',
		extensions: ['[Contrib]/physics/physics.js'],
        loader: {load: ['[tex]/physics']},

        'HTML-CSS': { scale: 100,
                        linebreaks: { automatic: 'false' },
                        webFont: 'TeX'
                       },
        SVG: {scale: 100,
              linebreaks: { automatic: 'false' },
              font: 'TeX'},
        NativeMML: {scale: 100},
        TeX: { equationNumbers: {autoNumber: 'AMS'},
               MultLineWidth: '85%',
               TagSide: 'right',
               TagIndent: '.8em'
	           <!-- packages: {'[+]': ['physics']} -->
             }
});
</script>
<script src='https://cdnjs.cloudflare.com/ajax/libs/mathjax/2.7.0/MathJax.js?config=TeX-AMS_HTML'></script>
</head>";

/// The top of the page for a document with the given metadata keywords:
/// the fixed head, then the front matter.
pub fn header(keywords: &Vec<Keyword>) -> (markup: String)
    ensures
        markup@ == HTML_HEAD@ + front_matter_markup(pairs(keywords@)),
{
    let mut out = String::new();
    out.append(HTML_HEAD);
    let block = front_matter(keywords);
    out.append(block.as_str());
    out
}

} // verus!
