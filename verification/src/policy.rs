//! The build-time policy: the one point where an operator's trust decisions
//! for what gets signed are expressed. The minimal policy trusts parameters
//! whose three referenced store paths all exist in the local trust domain
//! and, where an allow-list is configured, whose command-line tokens are all
//! members of it.

use vstd::prelude::*;

verus! {

/// What one build invocation proposes to embed and sign. Produced once per
/// build and never mutated after construction.
pub struct StubParameters {
    /// The store path of the stub binary itself.
    pub lanzaboote_store_path: String,
    /// The store path of the kernel to embed a hash of.
    pub kernel_store_path: String,
    /// The store path of the initrd to embed a hash of.
    pub initrd_store_path: String,
    /// The kernel command line, as an ordered sequence of tokens.
    pub kernel_cmdline: Vec<String>,
    /// The os-release text that identifies the boot entry.
    pub os_release_contents: Vec<u8>,
}

/// Whether a token stands in the allow-list.
pub open spec fn spec_contains_token(allowed: Seq<Seq<char>>, token: Seq<char>) -> bool {
    exists|j: int| 0 <= j < allowed.len() && allowed[j] == token
}

/// Whether every command-line token stands in the allow-list.
pub open spec fn spec_all_tokens_allowed(allowed: Seq<Seq<char>>, cmdline: Seq<Seq<char>>) -> bool {
    forall|i: int| 0 <= i < cmdline.len() ==> #[trigger] spec_contains_token(allowed, cmdline[i])
}

fn contains_string(allowed: &Vec<String>, token: &String) -> (r: bool)
    ensures
        r == spec_contains_token(allowed.deep_view(), token@),
{
    let n = allowed.len();
    let mut i: usize = 0;
    while i < n
        invariant
            0 <= i <= n,
            n == allowed@.len(),
            allowed.deep_view().len() == n,
            forall|j: int| 0 <= j < n ==> allowed.deep_view()[j] == allowed@[j]@,
            forall|j: int| 0 <= j < i ==> allowed@[j]@ != token@,
        decreases n - i,
    {
        if allowed[i].eq(token) {
            proof {
                assert(allowed.deep_view()[i as int] == token@);
            }
            return true;
        }
        i += 1;
    }
    false
}

/// The minimal, pluggable policy: store paths are trusted by membership in
/// the local store, and the command line by an optional allow-list.
pub struct TrivialPolicy {
    /// When configured, the only command-line tokens that may be signed; an
    /// empty list rejects every non-empty command line.
    pub allowed_kernel_cmdline_items: Option<Vec<String>>,
}

impl TrivialPolicy {
    /// Whether every command-line token passes the allow-list: with no list
    /// configured there is no restriction.
    pub open spec fn spec_cmdline_allowed(&self, cmdline: Seq<Seq<char>>) -> bool {
        match self.allowed_kernel_cmdline_items {
            None => true,
            Some(allowed) => spec_all_tokens_allowed(allowed.deep_view(), cmdline),
        }
    }

    /// Decide whether stub parameters are trustworthy enough to sign: all
    /// three referenced store paths must be trusted and every command-line
    /// token allowed. The three booleans report whether each store path
    /// exists in the trust domain, as the caller established it; the check
    /// short-circuits on the first untrusted path or token.
    pub fn trusted_stub_parameters(
        &self,
        parameters: &StubParameters,
        lanzaboote_path_trusted: bool,
        kernel_path_trusted: bool,
        initrd_path_trusted: bool,
    ) -> (r: bool)
        ensures
            r == (lanzaboote_path_trusted && kernel_path_trusted && initrd_path_trusted
                && self.spec_cmdline_allowed(parameters.kernel_cmdline.deep_view())),
    {
        if !lanzaboote_path_trusted || !kernel_path_trusted || !initrd_path_trusted {
            return false;
        }
        if self.allowed_kernel_cmdline_items.is_none() {
            return true;
        }
        let allowed = self.allowed_kernel_cmdline_items.as_ref().unwrap();
        proof {
            assert(*allowed == self.allowed_kernel_cmdline_items->0);
        }
        let n = parameters.kernel_cmdline.len();
        let ghost cmdline = parameters.kernel_cmdline.deep_view();
        let mut i: usize = 0;
        while i < n
            invariant
                0 <= i <= n,
                n == parameters.kernel_cmdline@.len(),
                cmdline == parameters.kernel_cmdline.deep_view(),
                cmdline.len() == n,
                *allowed == self.allowed_kernel_cmdline_items->0,
                self.allowed_kernel_cmdline_items is Some,
                forall|j: int| 0 <= j < n ==> cmdline[j] == parameters.kernel_cmdline@[j]@,
                forall|j: int|
                    0 <= j < i ==> #[trigger] spec_contains_token(allowed.deep_view(), cmdline[j]),
            decreases n - i,
        {
            if !contains_string(allowed, &parameters.kernel_cmdline[i]) {
                proof {
                    assert((i as int) < cmdline.len() && !spec_contains_token(
                        allowed.deep_view(),
                        cmdline[i as int],
                    ));
                    assert(!spec_all_tokens_allowed(allowed.deep_view(), cmdline));
                    assert(!self.spec_cmdline_allowed(cmdline));
                }
                return false;
            }
            i += 1;
        }
        true
    }
}

/// Policy rejection: parameters are rejected whenever any one of the three
/// referenced store paths is untrusted, even where the other two are trusted
/// and the whole command line is allow-listed.
pub proof fn lemma_policy_rejects_untrusted_path(
    policy: TrivialPolicy,
    cmdline: Seq<Seq<char>>,
    lanzaboote_path_trusted: bool,
    kernel_path_trusted: bool,
    initrd_path_trusted: bool,
)
    requires
        !lanzaboote_path_trusted || !kernel_path_trusted || !initrd_path_trusted,
    ensures
        !(lanzaboote_path_trusted && kernel_path_trusted && initrd_path_trusted
            && policy.spec_cmdline_allowed(cmdline)),
{
}

} // verus!
