//! The task crawler: its settings and its queue of tasks.
use vstd::prelude::*;
use vstd::string::*;
use crate::failure::{Error, ErrorKind, Result};
use crate::task::Task;

verus! {

/// The settings of a crawler. The timeout is in milliseconds.
#[derive(Debug)]
pub struct CrawlerConfig {
    pub producers: u32,
    pub consumers: u32,
    pub workers: u32,
    pub timeout: u64,
    pub buffer_size: usize,
    pub output: Option<String>,
}

impl CrawlerConfig {
    pub fn producers(&mut self, n: u32) -> (r: &mut Self)
        ensures
            *r == (CrawlerConfig { producers: n, ..*old(self) }),
            *final(self) == *final(r),
    {
        self.producers = n;
        self
    }

    pub fn consumers(&mut self, n: u32) -> (r: &mut Self)
        ensures
            *r == (CrawlerConfig { consumers: n, ..*old(self) }),
            *final(self) == *final(r),
    {
        self.consumers = n;
        self
    }

    pub fn workers(&mut self, n: u32) -> (r: &mut Self)
        ensures
            *r == (CrawlerConfig { workers: n, ..*old(self) }),
            *final(self) == *final(r),
    {
        self.workers = n;
        self
    }

    /// Sets how many milliseconds a worker waits for a task before it ends.
    pub fn timeout(&mut self, timeout: u64) -> (r: &mut Self)
        ensures
            *r == (CrawlerConfig { timeout, ..*old(self) }),
            *final(self) == *final(r),
    {
        self.timeout = timeout;
        self
    }

    pub fn buffer_size(&mut self, buffer_size: usize) -> (r: &mut Self)
        ensures
            *r == (CrawlerConfig { buffer_size, ..*old(self) }),
            *final(self) == *final(r),
    {
        self.buffer_size = buffer_size;
        self
    }

    /// Sets the script that the results are sent to.
    pub fn output(&mut self, output: &str) -> (r: &mut Self)
        ensures
            r.output matches Some(o) && o@ == output@,
            r.producers == old(self).producers,
            r.consumers == old(self).consumers,
            r.workers == old(self).workers,
            r.timeout == old(self).timeout,
            r.buffer_size == old(self).buffer_size,
            *final(self) == *final(r),
    {
        self.output = Some(String::from_str(output));
        self
    }

    /// A crawler with these settings and no task.
    pub fn build(self) -> (r: Crawler)
        ensures
            r.cfg == self,
            r.queue@ == Seq::<Task>::empty(),
            !r.running,
    {
        Crawler { queue: Vec::new(), running: false, cfg: self }
    }
}

impl Default for CrawlerConfig {
    fn default() -> (r: CrawlerConfig)
        ensures
            r == (CrawlerConfig {
                producers: 1,
                consumers: 2,
                timeout: 5000,
                buffer_size: 10,
                workers: 4,
                output: None,
            }),
    {
        CrawlerConfig {
            producers: 1,
            consumers: 2,
            timeout: 5000,
            buffer_size: 10,
            workers: 4,
            output: None,
        }
    }
}

/// What a download comes to: the body of a response whose status is a
/// success, from 200 up to 299; else the failure with the status.
pub fn download(status: u16, body: String) -> (r: Result<String>)
    ensures
        match r {
            Ok(text) => 200 <= status < 300 && text == body,
            Err(e) => !(200 <= status < 300) && e.kind == ErrorKind::Http(status),
        },
{
    if 200 <= status && status < 300 {
        Ok(body)
    } else {
        Err(Error::new(ErrorKind::Http(status)))
    }
}

/// A crawler: the tasks that wait, whether it was started, its settings.
#[derive(Debug)]
pub struct Crawler {
    pub queue: Vec<Task>,
    pub running: bool,
    pub cfg: CrawlerConfig,
}

/// What a started crawler has to carry out: so many workers, each waiting
/// so many milliseconds for a task, on these tasks, with the results sent
/// to the script at `output`.
#[derive(Debug)]
pub struct Launch {
    pub workers: u32,
    pub timeout: u64,
    pub output: String,
    pub tasks: Vec<Task>,
}

/// The script that the results are sent to: the one that was set, or none.
pub open spec fn launch_output(output: Option<String>) -> Seq<char> {
    match output {
        Some(p) => p@,
        None => Seq::empty(),
    }
}

impl Crawler {
    /// A crawler with the default settings and no task.
    pub fn new() -> (r: Crawler)
        ensures
            r.queue@ == Seq::<Task>::empty(),
            !r.running,
            r.cfg == (CrawlerConfig {
                producers: 1,
                consumers: 2,
                timeout: 5000,
                buffer_size: 10,
                workers: 4,
                output: None,
            }),
    {
        CrawlerConfig::default().build()
    }

    pub fn add(&mut self, task: Task)
        ensures
            final(self).queue@ == old(self).queue@.push(task),
            final(self).running == old(self).running,
            final(self).cfg == old(self).cfg,
    {
        self.queue.push(task);
    }

    /// Starts the crawler: nothing happens if it was started before or has
    /// no task; else it counts as started, and what it has to carry out
    /// comes back.
    pub fn start(&mut self) -> (r: Option<Launch>)
        ensures
            final(self).queue == old(self).queue,
            final(self).cfg == old(self).cfg,
            r is None <==> old(self).running || old(self).queue@.len() == 0,
            r is None ==> final(self).running == old(self).running,
            r is Some ==> final(self).running,
            r matches Some(launch) ==> launch.workers == old(self).cfg.workers
                && launch.timeout == old(self).cfg.timeout
                && launch.tasks@ == old(self).queue@
                && launch.output@ == launch_output(old(self).cfg.output),
    {
        if self.running {
            return None;
        }
        if self.queue.len() == 0 {
            return None;
        }
        self.running = true;
        let output = match &self.cfg.output {
            Some(p) => p.clone(),
            None => String::new(),
        };
        let mut tasks: Vec<Task> = Vec::new();
        let mut i: usize = 0;
        while i < self.queue.len()
            invariant
                i <= self.queue.len(),
                self.queue == old(self).queue,
                self.cfg == old(self).cfg,
                self.running,
                tasks@ == self.queue@.take(i as int),
            decreases self.queue.len() - i,
        {
            tasks.push(self.queue[i].clone());
            assert(self.queue@.take(i + 1) == self.queue@.take(i as int).push(self.queue@[i as int]));
            i += 1;
        }
        assert(self.queue@.take(i as int) == self.queue@);
        Some(Launch { workers: self.cfg.workers, timeout: self.cfg.timeout, output, tasks })
    }
}

} // verus!
