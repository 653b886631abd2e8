//! Bounded, cycle-safe crawl of the server's address space.
//!
//! Browsing is a remote call made outside the library, so the crawler is
//! a step machine: `next_request` names the node to browse, the caller
//! performs the browse and hands the children back through
//! `on_browse_success` (or reports a failure, which is a skip).  The
//! visited set guards against cycles and shared references; depth and
//! node-count bounds come from the configuration.  The node-count bound
//! is a hard cap here: the child that fills the list is still appended,
//! and the crawl then stops.

use vstd::prelude::*;
use crate::browser::BrowsedNode;
use crate::subscription::str_eq;

verus! {

/// Configuration for the crawler.
#[derive(Debug, Clone)]
pub struct CrawlConfig {
    /// Maximum depth to crawl.
    pub max_depth: usize,
    /// Maximum number of nodes to collect.
    pub max_nodes: usize,
    /// Node to start from.
    pub start_node: String,
}

/// Whether a node id occurs in the visited list.
pub open spec fn seen(visited: Seq<String>, node: Seq<char>) -> bool {
    exists|i: int| 0 <= i < visited.len() && visited[i]@ == node
}

/// Crawl state over one invocation.
pub struct Crawler {
    /// The bounds and the start node.
    pub config: CrawlConfig,
    /// Node identifiers already browsed (cycle guard).
    pub visited: Vec<String>,
    /// Nodes collected so far.
    pub results: Vec<BrowsedNode>,
    /// Nodes still to browse, with the depth they were found at.
    pub stack: Vec<(String, usize)>,
    /// Depth of the browse currently in flight, if one is.
    pub awaiting: Option<usize>,
}

impl Crawler {
    /// The crawl invariant: no node is visited twice, every queued node
    /// sits within the depth bound, a browse is only in flight below the
    /// depth bound and below the node cap, and the results never exceed
    /// the cap.
    pub open spec fn wf(&self) -> bool {
        &&& forall|i: int, j: int|
            0 <= i < j < self.visited@.len() ==> (#[trigger] self.visited@[i])@ != (
            #[trigger] self.visited@[j])@
        &&& forall|k: int|
            0 <= k < self.stack@.len() ==> (#[trigger] self.stack@[k]).1
                <= self.config.max_depth
        &&& match self.awaiting {
            Some(d) => d < self.config.max_depth && self.results@.len()
                < self.config.max_nodes,
            None => true,
        }
        &&& self.results@.len() <= self.config.max_nodes
    }

    /// A fresh crawl: nothing visited, nothing collected, the start node
    /// queued at depth zero.
    pub fn new(config: CrawlConfig) -> (r: Self)
        ensures
            r.visited@.len() == 0,
            r.results@.len() == 0,
            r.awaiting is None,
            r.stack@.len() == 1,
            r.stack@[0].0@ == config.start_node@,
            r.stack@[0].1 == 0,
            r.config.max_depth == config.max_depth,
            r.config.max_nodes == config.max_nodes,
            r.wf(),
    {
        let start = config.start_node.clone();
        let mut stack: Vec<(String, usize)> = Vec::new();
        stack.push((start, 0));
        Crawler { config, visited: Vec::new(), results: Vec::new(), stack, awaiting: None }
    }

    /// Whether a node id was already visited.
    pub fn was_visited(&self, node: &str) -> (r: bool)
        ensures
            r == seen(self.visited@, node@),
    {
        let n = self.visited.len();
        let mut i: usize = 0;
        while i < n
            invariant
                0 <= i <= n,
                n == self.visited@.len(),
                forall|j: int| 0 <= j < i ==> (#[trigger] self.visited@[j])@ != node@,
            decreases n - i,
        {
            if str_eq(self.visited[i].as_str(), node) {
                return true;
            }
            i += 1;
        }
        false
    }
}

/// What asking for the next browse does: either some queued, unvisited,
/// in-depth node is handed out and marked visited, or the crawl is over
/// (queue exhausted, or the cap reached) and the queue is dropped.
pub open spec fn next_request_post(pre: Crawler, post: Crawler, r: Option<String>) -> bool {
    &&& post.results == pre.results
    &&& post.config == pre.config
    &&& match r {
        Some(node) => {
            &&& !seen(pre.visited@, node@)
            &&& post.visited@.len() == pre.visited@.len() + 1
            &&& (forall|k: int|
                0 <= k < pre.visited@.len() ==> post.visited@[k] == pre.visited@[k])
            &&& post.visited@.last()@ == node@
            &&& (exists|k: int|
                0 <= k < pre.stack@.len() && (#[trigger] pre.stack@[k]).0@ == node@
                    && post.awaiting == Some(pre.stack@[k].1))
            &&& match post.awaiting {
                Some(d) => d < pre.config.max_depth,
                None => false,
            }
            &&& pre.results@.len() < pre.config.max_nodes
        },
        None => {
            &&& post.visited == pre.visited
            &&& post.awaiting is None
            &&& post.stack@.len() == 0
            // The crawl only ends for cause: the cap is full, or every
            // queued node was already visited or sits at the depth bound.
            &&& (pre.results@.len() >= pre.config.max_nodes || forall|k: int|
                0 <= k < pre.stack@.len() ==> seen(pre.visited@, (#[trigger] pre.stack@[k]).0@)
                    || pre.stack@[k].1 >= pre.config.max_depth)
        },
    }
}

impl Crawler {
    /// Hand out the next node to browse, or report the crawl finished.
    /// A queued node at the depth bound or already visited is skipped
    /// without being browsed.
    pub fn next_request(&mut self) -> (r: Option<String>)
        requires
            old(self).wf(),
            old(self).awaiting is None,
        ensures
            final(self).wf(),
            next_request_post(*old(self), *final(self), r),
    {
        loop
            invariant
                self.wf(),
                self.awaiting is None,
                self.visited == old(self).visited,
                self.results == old(self).results,
                self.config == old(self).config,
                forall|k: int|
                    0 <= k < self.stack@.len() ==> self.stack@[k] == #[trigger] old(
                        self,
                    ).stack@[k],
                self.stack@.len() <= old(self).stack@.len(),
                // Every queue entry popped so far was skipped for cause.
                forall|k: int|
                    self.stack@.len() <= k < old(self).stack@.len() ==> seen(
                        old(self).visited@,
                        (#[trigger] old(self).stack@[k]).0@,
                    ) || old(self).stack@[k].1 >= old(self).config.max_depth,
            decreases self.stack@.len(),
        {
            if self.stack.len() == 0 {
                return None;
            }
            if self.results.len() >= self.config.max_nodes {
                self.stack.clear();
                return None;
            }
            let ghost pre_len = self.stack@.len();
            let entry = match self.stack.pop() {
                Some(e) => e,
                None => {
                    return None;
                },
            };
            proof {
                assert(entry == old(self).stack@[pre_len - 1]);
            }
            let (node, d) = entry;
            if d < self.config.max_depth && !self.was_visited(node.as_str()) {
                let ghost before = self.visited@;
                self.visited.push(node.clone());
                self.awaiting = Some(d);
                proof {
                    assert(0 <= pre_len - 1 < old(self).stack@.len() && old(self).stack@[
                        pre_len - 1].0@ == node@ && self.awaiting == Some(old(self).stack@[
                        pre_len - 1].1));
                }
                proof {
                    assert forall|i: int, j: int|
                        0 <= i < j < self.visited@.len() implies (
                        #[trigger] self.visited@[i])@ != (#[trigger] self.visited@[j])@ by {
                        if j < before.len() {
                            assert(self.visited@[i] == before[i]);
                            assert(self.visited@[j] == before[j]);
                        } else {
                            assert(self.visited@[i] == before[i]);
                            assert(seen(before, self.visited@[i]@));
                        }
                    }
                }
                return Some(node);
            }
        }
    }

    /// Take the children of the node just browsed: each is appended to
    /// the results until the cap fills, and container children within
    /// the depth bound are queued for their own browse.  Filling the cap
    /// ends the crawl: the queue is dropped.
    pub fn on_browse_success(&mut self, children: Vec<BrowsedNode>)
        requires
            old(self).wf(),
            old(self).awaiting is Some,
        ensures
            final(self).wf(),
            final(self).awaiting is None,
            final(self).visited == old(self).visited,
            final(self).config == old(self).config,
            ({
                let room = old(self).config.max_nodes - old(self).results@.len();
                let m = if children@.len() <= room {
                    children@.len() as int
                } else {
                    room as int
                };
                &&& final(self).results@ == old(self).results@ + children@.subrange(0, m)
                &&& (children@.len() >= room ==> final(self).stack@.len() == 0)
                &&& (children@.len() < room ==> (match old(self).awaiting {
                    Some(d0) => {
                        &&& (forall|k: int|
                            0 <= k < old(self).stack@.len() ==> final(self).stack@[k]
                                == #[trigger] old(self).stack@[k])
                        &&& (forall|k: int|
                            old(self).stack@.len() <= k < final(self).stack@.len() ==> (
                            #[trigger] final(self).stack@[k]).1 == d0 + 1)
                    },
                    None => false,
                }))
            }),
    {
        let d = match self.awaiting {
            Some(d) => d,
            None => 0,
        };
        self.awaiting = None;
        let n = children.len();
        let ghost room = self.config.max_nodes - self.results@.len();
        let mut i: usize = 0;
        while i < n
            invariant
                0 <= i <= n,
                n == children@.len(),
                i < room,
                room == old(self).config.max_nodes - old(self).results@.len(),
                room >= 1,
                d < old(self).config.max_depth,
                self.config == old(self).config,
                self.visited == old(self).visited,
                self.awaiting is None,
                self.results@ == old(self).results@ + children@.subrange(0, i as int),
                old(self).wf(),
                forall|k: int|
                    0 <= k < old(self).stack@.len() ==> self.stack@[k] == #[trigger] old(
                        self,
                    ).stack@[k],
                forall|k: int|
                    old(self).stack@.len() <= k < self.stack@.len() ==> (
                    #[trigger] self.stack@[k]).1 == d + 1,
                self.stack@.len() >= old(self).stack@.len(),
            decreases n - i,
        {
            let child = &children[i];
            self.results.push(child.duplicate());
            proof {
                assert(self.results@ =~= old(self).results@ + children@.subrange(
                    0,
                    i + 1 as int,
                ));
            }
            i += 1;
            if self.results.len() >= self.config.max_nodes {
                self.stack.clear();
                proof {
                    assert(i as int == if children@.len() <= room {
                        children@.len() as int
                    } else {
                        room as int
                    });
                }
                return ;
            }
            if child.has_children {
                self.stack.push((child.node_id.clone(), d + 1));
            }
        }
        proof {
            assert(children@.len() < room);
            assert forall|k: int|
                0 <= k < self.stack@.len() implies (#[trigger] self.stack@[k]).1
                <= self.config.max_depth by {
                if k < old(self).stack@.len() {
                    assert(self.stack@[k] == old(self).stack@[k]);
                }
            }
        }
    }

    /// A browse failure is a skip: the node stays visited, nothing is
    /// collected, and the crawl goes on with the rest of the queue.
    pub fn on_browse_failure(&mut self)
        requires
            old(self).wf(),
        ensures
            final(self).wf(),
            final(self).awaiting is None,
            final(self).visited == old(self).visited,
            final(self).results == old(self).results,
            final(self).stack == old(self).stack,
            final(self).config == old(self).config,
    {
        self.awaiting = None;
    }

    /// Whether the crawl is complete.
    pub fn is_done(&self) -> (r: bool)
        ensures
            r == (self.stack@.len() == 0 && self.awaiting is None),
    {
        self.stack.len() == 0 && self.awaiting.is_none()
    }

    /// The collected nodes, ending the crawl.
    pub fn into_results(self) -> (r: Vec<BrowsedNode>)
        ensures
            r == self.results,
    {
        self.results
    }
}

/// The depth bound holds of every browse: a node is only ever browsed at
/// a recorded depth strictly below `max_depth`, so nothing deeper than
/// `max_depth` is ever reached or collected.
pub proof fn lemma_crawl_depth_bounded(pre: Crawler, post: Crawler, node: String)
    requires
        pre.wf(),
        next_request_post(pre, post, Some(node)),
    ensures
        post.awaiting matches Some(d) && d < pre.config.max_depth,
{
}

/// The visited set guarantees termination on any graph, cycles included:
/// every browse handed out consumes a node never visited before and
/// marks it, and visited nodes are never browsed again, so on an address
/// space of finitely many nodes the number of browses is bounded by the
/// number of distinct nodes.
pub proof fn lemma_visited_guards_termination(pre: Crawler, post: Crawler, node: String)
    requires
        pre.wf(),
        next_request_post(pre, post, Some(node)),
    ensures
        !seen(pre.visited@, node@),
        seen(post.visited@, node@),
        post.visited@.len() == pre.visited@.len() + 1,
        forall|i: int, j: int|
            0 <= i < j < post.visited@.len() ==> (#[trigger] post.visited@[i])@ != (
            #[trigger] post.visited@[j])@,
{
    assert(post.visited@.last()@ == node@);
    assert(seen(post.visited@, node@));
    assert forall|i: int, j: int|
        0 <= i < j < post.visited@.len() implies (#[trigger] post.visited@[i])@ != (
        #[trigger] post.visited@[j])@ by {
        if j < pre.visited@.len() {
            assert(post.visited@[i] == pre.visited@[i]);
            assert(post.visited@[j] == pre.visited@[j]);
        } else {
            assert(post.visited@[i] == pre.visited@[i]);
            assert(post.visited@[j]@ == node@);
            assert(seen(pre.visited@, post.visited@[i]@));
        }
    }
}

} // verus!
