use vstd::prelude::*;

use crate::error::Error;
use crate::test_suite::{TestSuite, TestSuiteView};

verus! {

/// The loaded suites of one run, keyed by their suite directory. Backed by
/// an association list whose keys are unique.
pub struct TestSuiteRegistry {
    test_suites: Vec<(String, TestSuite)>,
}

/// The suite stored under a key, if any: the association list is searched
/// from the front.
pub open spec fn assoc_get(entries: Seq<(String, TestSuite)>, key: Seq<char>) -> Option<
    TestSuiteView,
>
    decreases entries.len(),
{
    if entries.len() == 0 {
        None
    } else if entries[0].0@ == key {
        Some(entries[0].1@)
    } else {
        assoc_get(entries.drop_first(), key)
    }
}

impl TestSuiteRegistry {
    /// The stored entries hold pairwise distinct keys.
    pub closed spec fn wf(self) -> bool {
        forall|a: int, b: int|
            0 <= a < b < self.entries().len() ==> (#[trigger] self.entries()[a]).0@ != (
            #[trigger] self.entries()[b]).0@
    }

    /// The stored (suite directory, suite) entries.
    pub closed spec fn entries(self) -> Seq<(String, TestSuite)> {
        self.test_suites@
    }

    /// The suite registered under a directory, if any.
    pub open spec fn spec_get(self, key: Seq<char>) -> Option<TestSuiteView> {
        assoc_get(self.entries(), key)
    }

    pub fn new() -> (res: Self)
        ensures
            res.wf(),
            forall|key: Seq<char>| #[trigger] res.spec_get(key) is None,
    {
        let registry = TestSuiteRegistry { test_suites: Vec::new() };
        proof {
            assert forall|key: Seq<char>| #[trigger] registry.spec_get(key) is None by {
                assert(registry.entries().len() == 0);
            }
        }
        registry
    }

    /// Look a suite up by its directory; an unknown directory is the
    /// `UnknownTestSuite` error.
    pub fn get(&self, test_suite_dir: &str) -> (res: Result<&TestSuite, Error>)
        ensures
            match res {
                Ok(test_suite) => self.spec_get(test_suite_dir@) == Some(test_suite@),
                Err(err) => self.spec_get(test_suite_dir@) is None && err@
                    == crate::error::ErrorView::UnknownTestSuite(test_suite_dir@),
            },
    {
        proof {
            assert(self.entries().skip(0) =~= self.entries());
        }
        let key = test_suite_dir.to_owned();
        let mut i: usize = 0;
        while i < self.test_suites.len()
            invariant
                i <= self.entries().len(),
                key@ == test_suite_dir@,
                assoc_get(self.entries().skip(i as int), test_suite_dir@) == self.spec_get(
                    test_suite_dir@,
                ),
                forall|j: int|
                    0 <= j < i ==> (#[trigger] self.entries()[j]).0@ != test_suite_dir@,
            decreases self.entries().len() - i,
        {
            proof {
                assert(self.entries().skip(i as int)[0] == self.entries()[i as int]);
                assert(self.entries().skip(i as int).drop_first() =~= self.entries().skip(
                    i + 1,
                ));
            }
            let entry = &self.test_suites[i];
            if entry.0.eq(&key) {
                return Ok(&entry.1);
            }
            i += 1;
        }
        proof {
            assert(self.entries().skip(self.entries().len() as int).len() == 0);
        }
        Err(Error::UnknownTestSuite(test_suite_dir.to_owned()))
    }

    /// Look a suite up by its directory for modification; an unknown
    /// directory is the `UnknownTestSuite` error. Whatever the caller
    /// leaves in the returned suite becomes that directory's binding, at
    /// its place in the entries; every other entry is untouched.
    pub fn get_mut(&mut self, test_suite_dir: &str) -> (res: Result<&mut TestSuite, Error>)
        requires
            old(self).wf(),
        ensures
            final(self).wf(),
            match res {
                Ok(suite) => exists|at: int|
                    {
                        &&& 0 <= at < old(self).entries().len()
                        &&& (#[trigger] old(self).entries()[at]).0@ == test_suite_dir@
                        &&& *suite == old(self).entries()[at].1
                        &&& final(self).entries() == old(self).entries().update(
                            at,
                            (old(self).entries()[at].0, *final(suite)),
                        )
                    },
                Err(err) => {
                    &&& final(self).entries() == old(self).entries()
                    &&& old(self).spec_get(test_suite_dir@) is None
                    &&& err@ == crate::error::ErrorView::UnknownTestSuite(test_suite_dir@)
                },
            },
    {
        proof {
            assert(self.entries().skip(0) =~= self.entries());
        }
        let ghost pre = self.entries();
        let key = test_suite_dir.to_owned();
        let mut i: usize = 0;
        while i < self.test_suites.len()
            invariant
                old(self).wf(),
                self.entries() == pre,
                pre == old(self).entries(),
                i <= pre.len(),
                key@ == test_suite_dir@,
                assoc_get(pre.skip(i as int), test_suite_dir@) == old(self).spec_get(
                    test_suite_dir@,
                ),
                forall|j: int| 0 <= j < i ==> (#[trigger] pre[j]).0@ != test_suite_dir@,
            decreases pre.len() - i,
        {
            proof {
                assert(pre.skip(i as int)[0] == pre[i as int]);
                assert(pre.skip(i as int).drop_first() =~= pre.skip(i + 1));
            }
            let found = self.test_suites[i].0.eq(&key);
            if found {
                let ghost at = i as int;
                let entry = &mut self.test_suites[i];
                let suite = &mut entry.1;
                proof {
                    assert(pre[at].0@ == test_suite_dir@);
                    assert(*suite == pre[at].1);
                    assert forall|a: int, b: int|
                        0 <= a < b < pre.len() implies (#[trigger] pre.update(
                        at,
                        (pre[at].0, *final(suite)),
                    )[a]).0@ != (#[trigger] pre.update(at, (pre[at].0, *final(suite)))[b]).0@ by {
                        assert(pre.update(at, (pre[at].0, *final(suite)))[a].0@ == pre[a].0@);
                        assert(pre.update(at, (pre[at].0, *final(suite)))[b].0@ == pre[b].0@);
                    }
                }
                return Ok(suite);
            }
            i += 1;
        }
        proof {
            assert(pre.skip(pre.len() as int).len() == 0);
        }
        Err(Error::UnknownTestSuite(test_suite_dir.to_owned()))
    }

    /// Register a suite under its directory, replacing a previously
    /// registered suite of the same directory.
    pub fn insert(&mut self, test_suite_dir: &str, test_suite: TestSuite)
        requires
            old(self).wf(),
        ensures
            final(self).wf(),
            final(self).spec_get(test_suite_dir@) == Some(test_suite@),
            forall|key: Seq<char>|
                key != test_suite_dir@ ==> #[trigger] final(self).spec_get(key) == old(
                    self,
                ).spec_get(key),
    {
        let ghost pre = self.entries();
        let key = test_suite_dir.to_owned();
        let mut i: usize = 0;
        while i < self.test_suites.len()
            invariant
                old(self).wf(),
                i <= self.entries().len(),
                self.entries() == pre,
                pre == old(self).entries(),
                key@ == test_suite_dir@,
                forall|j: int| 0 <= j < i ==> (#[trigger] pre[j]).0@ != test_suite_dir@,
            decreases self.entries().len() - i,
        {
            let found = self.test_suites[i].0.eq(&key);
            if found {
                let slot = &mut self.test_suites[i];
                *slot = (test_suite_dir.to_owned(), test_suite);
                proof {
                    lemma_assoc_update(pre, self.entries(), i as int, test_suite_dir@);
                }
                return ;
            }
            i += 1;
        }
        self.test_suites.push((test_suite_dir.to_owned(), test_suite));
        proof {
            lemma_assoc_push(pre, test_suite_dir@, self.entries());
        }
    }
}

/// Updating the entry holding `key` in place changes only that key's
/// binding.
proof fn lemma_assoc_update(
    pre: Seq<(String, TestSuite)>,
    post: Seq<(String, TestSuite)>,
    at: int,
    key: Seq<char>,
)
    requires
        0 <= at < pre.len(),
        post.len() == pre.len(),
        forall|j: int| 0 <= j < pre.len() && j != at ==> #[trigger] post[j] == pre[j],
        forall|j: int| 0 <= j < at ==> (#[trigger] pre[j]).0@ != key,
        pre[at].0@ == key,
        post[at].0@ == key,
        forall|a: int, b: int|
            0 <= a < b < pre.len() ==> (#[trigger] pre[a]).0@ != (#[trigger] pre[b]).0@,
    ensures
        assoc_get(post, key) == Some(post[at].1@),
        forall|other: Seq<char>|
            other != key ==> #[trigger] assoc_get(post, other) == assoc_get(pre, other),
        forall|a: int, b: int|
            0 <= a < b < post.len() ==> (#[trigger] post[a]).0@ != (#[trigger] post[b]).0@,
    decreases pre.len(),
{
    assert forall|a: int, b: int| 0 <= a < b < post.len() implies (#[trigger] post[a]).0@ != (
    #[trigger] post[b]).0@ by {
        assert(post[a].0@ == pre[a].0@);
        assert(post[b].0@ == pre[b].0@);
    }
    if at == 0 {
        assert(post.drop_first() =~= pre.drop_first());
        assert forall|other: Seq<char>| other != key implies #[trigger] assoc_get(post, other)
            == assoc_get(pre, other) by {
            assert(post[0].0@ == key);
            assert(pre[0].0@ == key);
        }
    } else {
        assert(post[0] == pre[0]);
        let pre_rest = pre.drop_first();
        let post_rest = post.drop_first();
        assert forall|j: int| 0 <= j < pre_rest.len() && j != at - 1 implies #[trigger] post_rest[j]
            == pre_rest[j] by {
            assert(post_rest[j] == post[j + 1]);
            assert(pre_rest[j] == pre[j + 1]);
        }
        assert forall|j: int| 0 <= j < at - 1 implies (#[trigger] pre_rest[j]).0@ != key by {
            assert(pre_rest[j] == pre[j + 1]);
        }
        assert(pre_rest[at - 1] == pre[at]);
        assert(post_rest[at - 1] == post[at]);
        assert forall|a: int, b: int|
            0 <= a < b < pre_rest.len() implies (#[trigger] pre_rest[a]).0@ != (
        #[trigger] pre_rest[b]).0@ by {
            assert(pre_rest[a] == pre[a + 1]);
            assert(pre_rest[b] == pre[b + 1]);
        }
        lemma_assoc_update(pre_rest, post_rest, at - 1, key);
        assert(pre[0].0@ != key);
        assert(assoc_get(post, key) == assoc_get(post_rest, key));
        assert(assoc_get(post, key) == Some(post[at].1@));
        assert forall|other: Seq<char>| other != key implies #[trigger] assoc_get(post, other)
            == assoc_get(pre, other) by {
            if post[0].0@ != other {
                assert(assoc_get(post, other) == assoc_get(post_rest, other));
                assert(assoc_get(pre, other) == assoc_get(pre_rest, other));
            }
        }
    }
}

/// Appending an entry whose key is absent binds that key and no other.
proof fn lemma_assoc_push(
    pre: Seq<(String, TestSuite)>,
    key: Seq<char>,
    post: Seq<(String, TestSuite)>,
)
    requires
        post.len() == pre.len() + 1,
        forall|j: int| 0 <= j < pre.len() ==> #[trigger] post[j] == pre[j],
        post[pre.len() as int].0@ == key,
        forall|j: int| 0 <= j < pre.len() ==> (#[trigger] pre[j]).0@ != key,
        forall|a: int, b: int|
            0 <= a < b < pre.len() ==> (#[trigger] pre[a]).0@ != (#[trigger] pre[b]).0@,
    ensures
        assoc_get(post, key) == Some(post[pre.len() as int].1@),
        forall|other: Seq<char>|
            other != key ==> #[trigger] assoc_get(post, other) == assoc_get(pre, other),
        forall|a: int, b: int|
            0 <= a < b < post.len() ==> (#[trigger] post[a]).0@ != (#[trigger] post[b]).0@,
    decreases pre.len(),
{
    assert forall|a: int, b: int| 0 <= a < b < post.len() implies (#[trigger] post[a]).0@ != (
    #[trigger] post[b]).0@ by {
        if b < pre.len() {
            assert(post[a].0@ == pre[a].0@);
            assert(post[b].0@ == pre[b].0@);
        } else {
            assert(post[a].0@ == pre[a].0@);
            assert(post[b].0@ == key);
        }
    }
    if pre.len() == 0 {
        assert(post[0].0@ == key);
        assert(assoc_get(post, key) == Some(post[0].1@));
        assert forall|other: Seq<char>| other != key implies #[trigger] assoc_get(post, other)
            == assoc_get(pre, other) by {
            assert(assoc_get(post, other) == assoc_get(post.drop_first(), other));
            assert(post.drop_first().len() == 0);
        }
    } else {
        let pre_rest = pre.drop_first();
        let post_rest = post.drop_first();
        assert(post[0] == pre[0]);
        assert forall|j: int| 0 <= j < pre_rest.len() implies #[trigger] post_rest[j]
            == pre_rest[j] by {
            assert(post_rest[j] == post[j + 1]);
            assert(pre_rest[j] == pre[j + 1]);
        }
        assert(post_rest[pre_rest.len() as int] == post[pre.len() as int]);
        assert forall|j: int| 0 <= j < pre_rest.len() implies (#[trigger] pre_rest[j]).0@
            != key by {
            assert(pre_rest[j] == pre[j + 1]);
        }
        assert forall|a: int, b: int|
            0 <= a < b < pre_rest.len() implies (#[trigger] pre_rest[a]).0@ != (
        #[trigger] pre_rest[b]).0@ by {
            assert(pre_rest[a] == pre[a + 1]);
            assert(pre_rest[b] == pre[b + 1]);
        }
        lemma_assoc_push(pre_rest, key, post_rest);
        assert(pre[0].0@ != key);
        assert(assoc_get(post, key) == assoc_get(post_rest, key));
        assert forall|other: Seq<char>| other != key implies #[trigger] assoc_get(post, other)
            == assoc_get(pre, other) by {
            if post[0].0@ != other {
                assert(assoc_get(post, other) == assoc_get(post_rest, other));
                assert(assoc_get(pre, other) == assoc_get(pre_rest, other));
            }
        }
    }
}

} // verus!
