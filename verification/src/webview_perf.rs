//! Helpers for a fast web view: a cache of resources with a time to live,
//! a list of resources to load ahead, and the scripts to run in the page.

use crate::codec::copy_range;
use crate::text::{join5, same_text};
use std::time::{SystemTime, UNIX_EPOCH};
use vstd::prelude::*;
use vstd::string::*;

verus! {

/// A cached resource.
pub struct CachedResource {
    content: Vec<u8>,
    content_type: String,
    cached_at: u64,
    expires_in: Option<u64>,
}

/// Mathematical content of a cached resource.
pub struct CachedModel {
    pub content: Seq<u8>,
    pub content_type: Seq<char>,
    /// When the resource was cached, in seconds since the epoch.
    pub cached_at: u64,
    /// The time to live in seconds; `None` for ever.
    pub expires_in: Option<u64>,
}

impl View for CachedResource {
    type V = CachedModel;

    closed spec fn view(&self) -> CachedModel {
        CachedModel {
            content: self.content@,
            content_type: self.content_type@,
            cached_at: self.cached_at,
            expires_in: self.expires_in,
        }
    }
}

struct CacheEntry {
    url: String,
    resource: CachedResource,
}

/// Resources by their address, each with the time at which it was cached.
pub struct CacheManager {
    entries: Vec<CacheEntry>,
}

/// Whether a resource has expired at `now`: it has a time to live, and more
/// than that has passed since it was cached. A clock that has gone back
/// behind the caching expires nothing.
pub open spec fn expired(resource: CachedModel, now: u64) -> bool {
    resource.expires_in is Some && now >= resource.cached_at && now - resource.cached_at
        > resource.expires_in->Some_0
}

/// Whether `cache` holds a resource under `url` that has not expired at
/// `now`.
pub open spec fn held_at(cache: Map<Seq<char>, CachedModel>, url: Seq<char>, now: u64) -> bool {
    cache.contains_key(url) && !expired(cache[url], now)
}

/// The resources of `cache` that have not expired at `now`.
pub open spec fn unexpired(cache: Map<Seq<char>, CachedModel>, now: u64) -> Map<
    Seq<char>,
    CachedModel,
> {
    Map::new(|k: Seq<char>| cache.contains_key(k) && !expired(cache[k], now), |k: Seq<char>| cache[k])
}

/// The current time in seconds since the epoch.
///
/// Trusted: wraps `std::time::SystemTime::now`, `duration_since` for
/// `UNIX_EPOCH` and `Duration::as_secs`; a clock that stands before the epoch
/// counts as zero. Nothing is claimed of the result.
#[verifier::external_body]
fn now_seconds() -> u64 {
    SystemTime::now().duration_since(UNIX_EPOCH).map(|d| d.as_secs()).unwrap_or(0)
}

spec fn holds(entries: Seq<CacheEntry>, url: Seq<char>) -> bool {
    exists|i: int| 0 <= i < entries.len() && #[trigger] entries[i].url@ == url
}

spec fn index_of(entries: Seq<CacheEntry>, url: Seq<char>) -> int {
    choose|i: int| 0 <= i < entries.len() && #[trigger] entries[i].url@ == url
}

spec fn distinct(entries: Seq<CacheEntry>) -> bool {
    forall|i: int, j: int|
        0 <= i < j < entries.len() ==> #[trigger] entries[i].url@ != #[trigger] entries[j].url@
}

spec fn as_map(entries: Seq<CacheEntry>) -> Map<Seq<char>, CachedModel> {
    Map::new(
        |k: Seq<char>| holds(entries, k),
        |k: Seq<char>| entries[index_of(entries, k)].resource@,
    )
}

proof fn lemma_entry(entries: Seq<CacheEntry>, i: int)
    requires
        distinct(entries),
        0 <= i < entries.len(),
    ensures
        holds(entries, entries[i].url@),
        index_of(entries, entries[i].url@) == i,
        as_map(entries).contains_key(entries[i].url@),
        as_map(entries)[entries[i].url@] == entries[i].resource@,
{
    let url = entries[i].url@;
    assert(holds(entries, url));
    let c = index_of(entries, url);
    assert(0 <= c < entries.len() && entries[c].url@ == url);
    if c < i {
        assert(entries[c].url@ != entries[i].url@);
    } else if i < c {
        assert(entries[i].url@ != entries[c].url@);
    }
}

proof fn lemma_holds(entries: Seq<CacheEntry>, url: Seq<char>) -> (i: int)
    requires
        holds(entries, url),
    ensures
        0 <= i < entries.len(),
        entries[i].url@ == url,
        i == index_of(entries, url),
{
    index_of(entries, url)
}

/// Removing the entry at `i` removes its address from the map and leaves
/// the rest.
proof fn lemma_remove(entries: Seq<CacheEntry>, i: int)
    requires
        distinct(entries),
        0 <= i < entries.len(),
    ensures
        distinct(entries.remove(i)),
        as_map(entries.remove(i)) == as_map(entries).remove(entries[i].url@),
        !holds(entries.remove(i), entries[i].url@),
{
    let rest = entries.remove(i);
    let url = entries[i].url@;
    assert forall|a: int, b: int| 0 <= a < b < rest.len() implies #[trigger] rest[a].url@
        != #[trigger] rest[b].url@ by {
        let a0 = if a < i {
            a
        } else {
            a + 1
        };
        let b0 = if b < i {
            b
        } else {
            b + 1
        };
        assert(rest[a] == entries[a0] && rest[b] == entries[b0]);
        assert(entries[a0].url@ != entries[b0].url@);
    }
    assert(!holds(rest, url)) by {
        if holds(rest, url) {
            let q = lemma_holds(rest, url);
            let q0 = if q < i {
                q
            } else {
                q + 1
            };
            assert(rest[q] == entries[q0]);
            if q0 < i {
                assert(entries[q0].url@ != entries[i].url@);
            } else {
                assert(entries[i].url@ != entries[q0].url@);
            }
        }
    }
    assert forall|k: Seq<char>| #[trigger]
        as_map(rest).contains_key(k) == as_map(entries).remove(url).contains_key(k) by {
        if holds(rest, k) {
            let q = lemma_holds(rest, k);
            let q0 = if q < i {
                q
            } else {
                q + 1
            };
            assert(rest[q] == entries[q0]);
            assert(holds(entries, k));
        }
        if holds(entries, k) && k != url {
            let p = lemma_holds(entries, k);
            let p1 = if p < i {
                p
            } else {
                p - 1
            };
            assert(rest[p1] == entries[p]);
            assert(holds(rest, k));
        }
    }
    assert forall|k: Seq<char>| as_map(rest).contains_key(k) implies #[trigger] as_map(rest)[k]
        == as_map(entries).remove(url)[k] by {
        let q = lemma_holds(rest, k);
        let q0 = if q < i {
            q
        } else {
            q + 1
        };
        assert(rest[q] == entries[q0]);
        lemma_entry(rest, q);
        lemma_entry(entries, q0);
    }
    assert(as_map(rest) =~= as_map(entries).remove(url));
}

/// Adding an entry with a new address inserts it into the map.
proof fn lemma_push(entries: Seq<CacheEntry>, entry: CacheEntry)
    requires
        distinct(entries),
        !holds(entries, entry.url@),
    ensures
        distinct(entries.push(entry)),
        as_map(entries.push(entry)) == as_map(entries).insert(entry.url@, entry.resource@),
{
    let more = entries.push(entry);
    let n = entries.len() as int;
    assert forall|a: int, b: int| 0 <= a < b < more.len() implies #[trigger] more[a].url@
        != #[trigger] more[b].url@ by {
        if b < n {
            assert(entries[a].url@ != entries[b].url@);
        } else {
            assert(more[a] == entries[a]);
            if more[a].url@ == entry.url@ {
                assert(holds(entries, entry.url@));
            }
        }
    }
    assert forall|k: Seq<char>| #[trigger]
        as_map(more).contains_key(k) == as_map(entries).insert(
            entry.url@,
            entry.resource@,
        ).contains_key(k) by {
        if holds(more, k) {
            let q = lemma_holds(more, k);
            if q < n {
                assert(more[q] == entries[q]);
                assert(holds(entries, k));
            }
        }
        if holds(entries, k) {
            let p = lemma_holds(entries, k);
            assert(more[p] == entries[p]);
            assert(holds(more, k));
        }
        if k == entry.url@ {
            assert(more[n] == entry);
            assert(holds(more, k));
        }
    }
    assert forall|k: Seq<char>| as_map(more).contains_key(k) implies #[trigger] as_map(more)[k]
        == as_map(entries).insert(entry.url@, entry.resource@)[k] by {
        let q = lemma_holds(more, k);
        lemma_entry(more, q);
        if q < n {
            assert(more[q] == entries[q]);
            lemma_entry(entries, q);
            if k == entry.url@ {
                assert(holds(entries, entry.url@));
            }
        }
    }
    assert(as_map(more) =~= as_map(entries).insert(entry.url@, entry.resource@));
}

impl View for CacheManager {
    type V = Map<Seq<char>, CachedModel>;

    closed spec fn view(&self) -> Map<Seq<char>, CachedModel> {
        as_map(self.entries@)
    }
}

impl CacheManager {
    /// No address is held twice.
    pub closed spec fn wf(&self) -> bool {
        distinct(self.entries@)
    }

    /// An empty cache.
    pub fn new() -> (cache: CacheManager)
        ensures
            cache.wf(),
            cache@ == Map::<Seq<char>, CachedModel>::empty(),
    {
        let cache = CacheManager { entries: Vec::new() };
        assert(cache@ =~= Map::<Seq<char>, CachedModel>::empty());
        cache
    }

    fn position(&self, url: &str) -> (r: Option<usize>)
        ensures
            match r {
                Some(i) => i < self.entries.len() && self.entries@[i as int].url@ == url@,
                None => !holds(self.entries@, url@),
            },
    {
        let mut i: usize = 0;
        while i < self.entries.len()
            invariant
                i <= self.entries.len(),
                forall|j: int| 0 <= j < i ==> self.entries@[j].url@ != url@,
            decreases self.entries.len() - i,
        {
            if same_text(self.entries[i].url.as_str(), url) {
                return Some(i);
            }
            i = i + 1;
        }
        None
    }

    /// Caches a resource under `url` as of the time `now`, in place of what
    /// was cached under it before.
    pub fn cache_resource_at(
        &mut self,
        url: &str,
        content: Vec<u8>,
        content_type: String,
        expires_in: Option<u64>,
        now: u64,
    )
        requires
            old(self).wf(),
        ensures
            final(self).wf(),
            final(self)@ == old(self)@.insert(
                url@,
                CachedModel {
                    content: content@,
                    content_type: content_type@,
                    cached_at: now,
                    expires_in,
                },
            ),
    {
        let ghost before = self.entries@;
        match self.position(url) {
            Some(i) => {
                proof {
                    lemma_remove(before, i as int);
                }
                self.entries.remove(i);
            },
            None => {
                assert(as_map(before).remove(url@) =~= as_map(before));
            },
        }
        let ghost rest = self.entries@;
        let entry = CacheEntry {
            url: String::from_str(url),
            resource: CachedResource { content, content_type, cached_at: now, expires_in },
        };
        proof {
            lemma_push(rest, entry);
            assert(as_map(before).remove(url@).insert(url@, entry.resource@) =~= as_map(
                before,
            ).insert(url@, entry.resource@));
        }
        self.entries.push(entry);
    }

    /// Caches a resource under `url` as of the current time.
    pub fn cache_resource(
        &mut self,
        url: &str,
        content: Vec<u8>,
        content_type: String,
        expires_in: Option<u64>,
    )
        requires
            old(self).wf(),
        ensures
            final(self).wf(),
            final(self)@.contains_key(url@),
            final(self)@[url@].content == content@,
            final(self)@[url@].content_type == content_type@,
            final(self)@[url@].expires_in == expires_in,
            final(self)@ == old(self)@.insert(url@, final(self)@[url@]),
    {
        let now = now_seconds();
        self.cache_resource_at(url, content, content_type, expires_in, now);
    }

    /// Looks up `url` at the time `now`. A resource that has expired is
    /// dropped from the cache and not returned.
    pub fn get_cached_at(&mut self, url: &str, now: u64) -> (r: Option<(Vec<u8>, String)>)
        requires
            old(self).wf(),
        ensures
            final(self).wf(),
            !old(self)@.contains_key(url@) ==> r is None && final(self)@ == old(self)@,
            old(self)@.contains_key(url@) && expired(old(self)@[url@], now) ==> r is None && final(self)@ == old(self)@.remove(url@),
            old(self)@.contains_key(url@) && !expired(old(self)@[url@], now) ==> r is Some
                && r->Some_0.0@ == old(self)@[url@].content && r->Some_0.1@ == old(self)@[url@].content_type && final(self)@ == old(self)@,
    {
        let ghost before = self.entries@;
        match self.position(url) {
            None => None,
            Some(i) => {
                proof {
                    lemma_entry(before, i as int);
                }
                let resource = &self.entries[i].resource;
                let gone = match resource.expires_in {
                    Some(e) => now >= resource.cached_at && now - resource.cached_at > e,
                    None => false,
                };
                if gone {
                    proof {
                        lemma_remove(before, i as int);
                    }
                    self.entries.remove(i);
                    None
                } else {
                    let content = copy_range(resource.content.as_slice(), 0, resource.content.len());
                    assert(resource.content@.subrange(0, resource.content@.len() as int)
                        =~= resource.content@);
                    Some((content, resource.content_type.clone()))
                }
            },
        }
    }

    /// Looks up `url` at the current time. A resource that has expired is
    /// dropped from the cache and not returned; one that has not, and so
    /// every resource without a time to live, is returned.
    pub fn get_cached(&mut self, url: &str) -> (r: Option<(Vec<u8>, String)>)
        requires
            old(self).wf(),
        ensures
            final(self).wf(),
            exists|now: u64| (r is Some) == #[trigger] held_at(old(self)@, url@, now),
            old(self)@.contains_key(url@) && old(self)@[url@].expires_in is None ==> r is Some,
            r is Some ==> old(self)@.contains_key(url@) && r->Some_0.0@ == old(self)@[url@].content && r->Some_0.1@ == old(self)@[url@].content_type && final(self)@
                == old(self)@,
            r is None ==> final(self)@ == old(self)@.remove(url@),
    {
        let now = now_seconds();
        let r = self.get_cached_at(url, now);
        proof {
            assert((r is Some) == held_at(old(self)@, url@, now));
            if !old(self)@.contains_key(url@) {
                assert(old(self)@.remove(url@) =~= old(self)@);
            }
        }
        r
    }

    /// Drops every resource that has expired at the time `now`.
    pub fn clear_expired_at(&mut self, now: u64)
        requires
            old(self).wf(),
        ensures
            final(self).wf(),
            final(self)@ == unexpired(old(self)@, now),
    {
        let ghost start = as_map(self.entries@);
        let mut i: usize = 0;
        while i < self.entries.len()
            invariant
                i <= self.entries.len(),
                distinct(self.entries@),
                unexpired(as_map(self.entries@), now) == unexpired(start, now),
                forall|j: int| 0 <= j < i ==> !expired(#[trigger] self.entries@[j].resource@, now),
            decreases self.entries.len() - i,
        {
            let ghost before = self.entries@;
            let cached_at = self.entries[i].resource.cached_at;
            let gone = match self.entries[i].resource.expires_in {
                Some(e) => now >= cached_at && now - cached_at > e,
                None => false,
            };
            assert(gone == expired(before[i as int].resource@, now));
            if gone {
                proof {
                    lemma_entry(before, i as int);
                    lemma_remove(before, i as int);
                    assert(unexpired(as_map(before).remove(before[i as int].url@), now)
                        =~= unexpired(as_map(before), now));
                }
                self.entries.remove(i);
                assert forall|j: int| 0 <= j < i implies !expired(
                    #[trigger] self.entries@[j].resource@,
                    now,
                ) by {
                    assert(self.entries@[j] == before[j]);
                    assert(!expired(before[j].resource@, now));
                }
            } else {
                i = i + 1;
                assert forall|j: int| 0 <= j < i implies !expired(
                    #[trigger] self.entries@[j].resource@,
                    now,
                ) by {
                    assert(self.entries@[j] == before[j]);
                    if j < i - 1 {
                        assert(!expired(before[j].resource@, now));
                    }
                }
            }
        }
        proof {
            let entries = self.entries@;
            assert forall|k: Seq<char>| as_map(entries).contains_key(k) implies !expired(
                #[trigger] as_map(entries)[k],
                now,
            ) by {
                let q = lemma_holds(entries, k);
                lemma_entry(entries, q);
            }
            assert(unexpired(as_map(entries), now) =~= as_map(entries));
        }
    }

    /// Drops every resource that has expired at the current time. What is
    /// left is what had not expired at one moment, the one that the clock
    /// gave: a resource stays exactly when it had not expired then, and nothing
    /// about it changes.
    pub fn clear_expired(&mut self)
        requires
            old(self).wf(),
        ensures
            final(self).wf(),
            exists|now: u64| final(self)@ == #[trigger] unexpired(old(self)@, now),
            final(self)@.submap_of(old(self)@),
            forall|k: Seq<char>|
                old(self)@.contains_key(k) && old(self)@[k].expires_in is None ==> final(self)@.contains_key(k),
    {
        let now = now_seconds();
        self.clear_expired_at(now);
    }

    /// Empties the cache.
    pub fn clear_all(&mut self)
        ensures
            final(self).wf(),
            final(self)@ == Map::<Seq<char>, CachedModel>::empty(),
    {
        self.entries.clear();
        assert(self@ =~= Map::<Seq<char>, CachedModel>::empty());
    }
}

impl Default for CacheManager {
    fn default() -> (cache: CacheManager)
        ensures
            cache.wf(),
            cache@ == Map::<Seq<char>, CachedModel>::empty(),
    {
        CacheManager::new()
    }
}

/// The resources to load before they are asked for.
pub struct PreloadManager {
    preload_resources: Vec<String>,
}

impl PreloadManager {
    /// The addresses of the resources, in the order in which they were
    /// added.
    pub closed spec fn resources(&self) -> Seq<String> {
        self.preload_resources@
    }

    /// A manager without resources.
    pub fn new() -> (m: PreloadManager)
        ensures
            m.resources().len() == 0,
    {
        PreloadManager { preload_resources: Vec::new() }
    }

    /// Adds a resource behind those that are there.
    pub fn add_preload_resource(&mut self, url: String)
        ensures
            final(self).resources() == old(self).resources().push(url),
    {
        self.preload_resources.push(url);
    }

    /// The resources, in the order in which they were added.
    pub fn get_preload_resources(&self) -> (out: &[String])
        ensures
            out@ == self.resources(),
    {
        self.preload_resources.as_slice()
    }
}

impl Default for PreloadManager {
    fn default() -> (m: PreloadManager)
        ensures
            m.resources().len() == 0,
    {
        PreloadManager::new()
    }
}

/// Script that makes scrolling smooth: passive listeners, throttled handlers and lazy images.
pub const SCROLL_OPTIMIZATION_SCRIPT: &'static str = "
        (function() {
            'use strict';
            
            // 1. 检测 passive 事件支持
            let passiveSupported = false;
            try {
                const opts = Object.defineProperty({}, 'passive', {
                    get: function() {
                        passiveSupported = true;
                        return true;
                    }
                });
                window.addEventListener('test', null, opts);
                window.removeEventListener('test', null, opts);
            } catch (e) {}
            
            // 2. 优化滚动事件处理 - 使用 requestAnimationFrame 节流
            let scrollTicking = false;
            let touchTicking = false;
            
            function optimizeScroll() {
                if (!scrollTicking) {
                    window.requestAnimationFrame(function() {
                        // 可以在这里添加滚动相关的处理逻辑
                        scrollTicking = false;
                    });
                    scrollTicking = true;
                }
            }
            
            function optimizeTouchMove() {
                if (!touchTicking) {
                    window.requestAnimationFrame(function() {
                        touchTicking = false;
                    });
                    touchTicking = true;
                }
            }
            
            // 3. 使用 passive 监听器优化滚动和触摸
            const scrollOptions = passiveSupported ? { passive: true, capture: false } : false;
            window.addEventListener('scroll', optimizeScroll, scrollOptions);
            window.addEventListener('touchmove', optimizeTouchMove, scrollOptions);
            window.addEventListener('wheel', optimizeScroll, scrollOptions);
            
            // 4. 优化 header 滚动时的背景填充
            let lastScrollY = window.scrollY;
            function handleHeaderScroll() {
                const header = document.querySelector('.app-header, [class*=\"header\"]');
                if (header) {
                    const currentScrollY = window.scrollY;
                    if (currentScrollY > 0 && lastScrollY === 0) {
                        header.style.willChange = 'box-shadow';
                        header.style.boxShadow = '0 2px 8px rgba(0,0,0,0.1)';
                    } else if (currentScrollY === 0 && lastScrollY > 0) {
                        header.style.boxShadow = 'none';
                        header.style.willChange = 'auto';
                    }
                    lastScrollY = currentScrollY;
                }
            }
            
            window.addEventListener('scroll', handleHeaderScroll, scrollOptions);
            
            // 5. 优化长列表渲染 - 虚拟滚动支持
            if ('IntersectionObserver' in window) {
                const listObserver = new IntersectionObserver(function(entries) {
                    entries.forEach(function(entry) {
                        if (entry.isIntersecting) {
                            entry.target.classList.add('visible');
                            // 启用 GPU 加速
                            entry.target.style.transform = 'translateZ(0)';
                        }
                    });
                }, {
                    rootMargin: '100px',
                    threshold: 0.01
                });
                
                // 观察列表项
                document.querySelectorAll('.list-item, [class*=\"list-item\"], [class*=\"card\"]').forEach(function(item) {
                    listObserver.observe(item);
                });
                
                // 动态添加的元素也需要观察
                const mutationObserver = new MutationObserver(function(mutations) {
                    mutations.forEach(function(mutation) {
                        mutation.addedNodes.forEach(function(node) {
                            if (node.nodeType === 1) {
                                const items = node.querySelectorAll ? node.querySelectorAll('.list-item, [class*=\"list-item\"]') : [];
                                items.forEach(function(item) {
                                    listObserver.observe(item);
                                });
                            }
                        });
                    });
                });
                
                mutationObserver.observe(document.body, {
                    childList: true,
                    subtree: true
                });
            }
            
            // 6. 优化图片懒加载（增强版）
            if ('IntersectionObserver' in window) {
                const imageObserver = new IntersectionObserver(function(entries) {
                    entries.forEach(function(entry) {
                        if (entry.isIntersecting) {
                            const img = entry.target;
                            if (img.dataset && img.dataset.src) {
                                img.classList.add('loading');
                                const imageLoader = new Image();
                                imageLoader.onload = function() {
                                    img.src = img.dataset.src;
                                    img.classList.remove('loading');
                                    img.classList.add('loaded');
                                    img.removeAttribute('data-src');
                                    imageObserver.unobserve(img);
                                };
                                imageLoader.onerror = function() {
                                    img.classList.remove('loading');
                                    img.classList.add('error');
                                };
                                imageLoader.src = img.dataset.src;
                            }
                        }
                    });
                }, {
                    rootMargin: '50px',
                    threshold: 0.01
                });
                
                document.querySelectorAll('img[data-src]').forEach(function(img) {
                    imageObserver.observe(img);
                });
            }
            
            // 7. 优化 CSS 动画性能
            document.querySelectorAll('[class*=\"animate\"], [class*=\"transition\"]').forEach(function(el) {
                el.style.willChange = 'transform, opacity';
                el.style.transform = 'translateZ(0)';
                el.style.backfaceVisibility = 'hidden';
            });
            
            console.log('WebView scroll optimization scripts injected');
        })();
        ";

/// Script that keeps memory low: it clears what is no longer shown and pools objects.
pub const MEMORY_OPTIMIZATION_SCRIPT: &'static str = "
        (function() {
            'use strict';
            
            // 1. 清理未使用的 DOM 节点
            function cleanupUnusedNodes() {
                const unusedNodes = document.querySelectorAll('[data-unused=\"true\"]');
                unusedNodes.forEach(function(node) {
                    node.remove();
                });
            }
            
            // 2. 清理未使用的图片缓存
            function cleanupImageCache() {
                const images = document.querySelectorAll('img');
                images.forEach(function(img) {
                    // 如果图片不在视口中且已加载，可以释放内存
                    if (img.complete && !img.classList.contains('keep-in-memory')) {
                        const rect = img.getBoundingClientRect();
                        const isVisible = rect.top < window.innerHeight + 500 && 
                                         rect.bottom > -500 &&
                                         rect.left < window.innerWidth + 500 && 
                                         rect.right > -500;
                        if (!isVisible && img.src && img.src.startsWith('data:')) {
                            // 对于 base64 图片，如果不在视口中可以移除
                            // img.src = '';
                        }
                    }
                });
            }
            
            // 3. 清理事件监听器（通过 WeakMap 跟踪）
            const eventListeners = new WeakMap();
            
            // 4. 定期清理（每5分钟）
            setInterval(function() {
                cleanupUnusedNodes();
                cleanupImageCache();
            }, 300000);
            
            // 5. 监听内存警告（如果支持）
            if ('memory' in performance) {
                const memoryCheckInterval = setInterval(function() {
                    const memory = performance.memory;
                    const usagePercent = (memory.usedJSHeapSize / memory.jsHeapSizeLimit) * 100;
                    
                    if (usagePercent > 80) {
                        console.warn('Memory usage high:', 
                            (memory.usedJSHeapSize / 1048576).toFixed(2) + 'MB / ' +
                            (memory.jsHeapSizeLimit / 1048576).toFixed(2) + 'MB (' +
                            usagePercent.toFixed(1) + '%)');
                        
                        // 触发清理
                        cleanupUnusedNodes();
                        cleanupImageCache();
                        
                        // 如果内存使用超过 90%，尝试强制垃圾回收
                        if (usagePercent > 90 && typeof window.gc === 'function') {
                            try {
                                window.gc();
                            } catch (e) {
                                console.warn('GC not available');
                            }
                        }
                    }
                }, 60000);
                
                // 页面卸载时清理
                window.addEventListener('beforeunload', function() {
                    clearInterval(memoryCheckInterval);
                });
            }
            
            // 6. 优化大对象的内存使用
            // 使用对象池模式管理频繁创建的对象
            const objectPool = {
                pools: {},
                get: function(type) {
                    if (!this.pools[type]) {
                        this.pools[type] = [];
                    }
                    return this.pools[type].pop() || {};
                },
                release: function(type, obj) {
                    if (!this.pools[type]) {
                        this.pools[type] = [];
                    }
                    // 清理对象属性
                    for (var key in obj) {
                        if (obj.hasOwnProperty(key)) {
                            delete obj[key];
                        }
                    }
                    this.pools[type].push(obj);
                }
            };
            
            // 7. 页面可见性变化时的内存优化
            document.addEventListener('visibilitychange', function() {
                if (document.hidden) {
                    // 页面隐藏时，可以释放一些资源
                    cleanupImageCache();
                }
            });
            
            console.log('WebView memory optimization scripts injected');
        })();
        ";

/// Script that speeds up loading: it resolves and connects ahead and loads key resources early.
pub const RESOURCE_OPTIMIZATION_SCRIPT: &'static str = "
        (function() {
            'use strict';
            
            // 1. DNS 预解析
            const dnsPrefetchDomains = [];
            dnsPrefetchDomains.forEach(function(domain) {
                const link = document.createElement('link');
                link.rel = 'dns-prefetch';
                link.href = domain;
                link.crossOrigin = 'anonymous';
                document.head.appendChild(link);
            });
            
            // 2. 预连接关键域名
            const preconnectDomains = [];
            preconnectDomains.forEach(function(domain) {
                const link = document.createElement('link');
                link.rel = 'preconnect';
                link.href = domain;
                link.crossOrigin = 'anonymous';
                document.head.appendChild(link);
            });
            
            // 3. 预加载关键资源
            const criticalResources = [];
            criticalResources.forEach(function(resource) {
                const link = document.createElement('link');
                link.rel = 'preload';
                link.href = resource.url;
                link.as = resource.as || 'fetch';
                if (resource.crossOrigin) {
                    link.crossOrigin = 'anonymous';
                }
                if (resource.type) {
                    link.type = resource.type;
                }
                document.head.appendChild(link);
            });
            
            // 4. 优化字体加载
            if ('fonts' in document) {
                document.fonts.ready.then(function() {
                    console.log('Fonts loaded');
                    // 字体加载完成后，可以移除 loading 类
                    document.body.classList.remove('fonts-loading');
                    document.body.classList.add('fonts-loaded');
                }).catch(function(err) {
                    console.warn('Font loading error:', err);
                });
                
                // 监听字体加载状态
                document.fonts.addEventListener('loading', function() {
                    document.body.classList.add('fonts-loading');
                });
            }
            
            // 5. 资源优先级优化
            // 为关键资源添加 fetchpriority=\"high\"
            document.querySelectorAll('link[rel=\"stylesheet\"], script[src]').forEach(function(resource) {
                if (resource.getAttribute('data-critical') === 'true') {
                    resource.setAttribute('fetchpriority', 'high');
                }
            });
            
            // 6. 使用 Service Worker 缓存策略（如果可用）
            if ('serviceWorker' in navigator) {
                // Service Worker 注册可以在主应用中处理
            }
            
            // 7. 优化图片格式和尺寸
            // 使用响应式图片
            document.querySelectorAll('img').forEach(function(img) {
                if (!img.loading && 'loading' in HTMLImageElement.prototype) {
                    // 使用原生懒加载（如果支持）
                    const src = img.getAttribute('data-src');
                    if (src && !img.src) {
                        img.loading = 'lazy';
                    }
                }
            });
            
            // 8. 预取下一页资源（如果适用）
            const nextPageLink = document.querySelector('a[rel=\"next\"]');
            if (nextPageLink && 'requestIdleCallback' in window) {
                window.requestIdleCallback(function() {
                    const link = document.createElement('link');
                    link.rel = 'prefetch';
                    link.href = nextPageLink.href;
                    document.head.appendChild(link);
                });
            }
            
            console.log('WebView resource optimization scripts injected');
        })();
        ";

/// The scripts to run in a page of the web view.
pub struct WebViewOptimizer;

impl WebViewOptimizer {
    /// The script that makes scrolling smooth.
    pub fn get_scroll_optimization_script() -> (script: String)
        ensures
            script@ == SCROLL_OPTIMIZATION_SCRIPT@,
    {
        String::from_str(SCROLL_OPTIMIZATION_SCRIPT)
    }

    /// The script that keeps memory low.
    pub fn get_memory_optimization_script() -> (script: String)
        ensures
            script@ == MEMORY_OPTIMIZATION_SCRIPT@,
    {
        String::from_str(MEMORY_OPTIMIZATION_SCRIPT)
    }

    /// The script that speeds up loading.
    pub fn get_resource_optimization_script() -> (script: String)
        ensures
            script@ == RESOURCE_OPTIMIZATION_SCRIPT@,
    {
        String::from_str(RESOURCE_OPTIMIZATION_SCRIPT)
    }

    /// The three scripts, one after the other, each on a line of its own.
    pub fn get_all_optimization_scripts() -> (script: String)
        ensures
            script@ == SCROLL_OPTIMIZATION_SCRIPT@ + "\n"@ + MEMORY_OPTIMIZATION_SCRIPT@ + "\n"@
                + RESOURCE_OPTIMIZATION_SCRIPT@,
    {
        join5(
            SCROLL_OPTIMIZATION_SCRIPT,
            "\n",
            MEMORY_OPTIMIZATION_SCRIPT,
            "\n",
            RESOURCE_OPTIMIZATION_SCRIPT,
        )
    }
}

} // verus!
