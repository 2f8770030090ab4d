//! Server configuration and the bind-address strings derived from it.

use vstd::prelude::*;

verus! {

/// The character of a single decimal digit.
pub open spec fn spec_dec_digit(d: int) -> char
    recommends
        0 <= d <= 9,
{
    if d == 0 {
        '0'
    } else if d == 1 {
        '1'
    } else if d == 2 {
        '2'
    } else if d == 3 {
        '3'
    } else if d == 4 {
        '4'
    } else if d == 5 {
        '5'
    } else if d == 6 {
        '6'
    } else if d == 7 {
        '7'
    } else if d == 8 {
        '8'
    } else {
        '9'
    }
}

/// The decimal rendering of a non-negative integer, without leading
/// zeroes (zero itself renders as one digit).
pub open spec fn spec_dec_str(n: int) -> Seq<char>
    recommends
        n >= 0,
    decreases n,
{
    if n < 10 {
        seq![spec_dec_digit(n)]
    } else {
        spec_dec_str(n / 10) + seq![spec_dec_digit(n % 10)]
    }
}

fn digit_str(d: u64) -> (r: &'static str)
    requires
        d <= 9,
    ensures
        r@ == seq![spec_dec_digit(d as int)],
{
    proof {
        reveal_strlit("0");
        reveal_strlit("1");
        reveal_strlit("2");
        reveal_strlit("3");
        reveal_strlit("4");
        reveal_strlit("5");
        reveal_strlit("6");
        reveal_strlit("7");
        reveal_strlit("8");
        reveal_strlit("9");
    }
    let r = match d {
        0 => "0",
        1 => "1",
        2 => "2",
        3 => "3",
        4 => "4",
        5 => "5",
        6 => "6",
        7 => "7",
        8 => "8",
        _ => "9",
    };
    proof {
        assert(r@ =~= seq![spec_dec_digit(d as int)]);
    }
    r
}

/// Render an unsigned value in decimal.
pub fn u64_dec_str(n: u64) -> (r: String)
    ensures
        r@ == spec_dec_str(n as int),
    decreases n,
{
    if n < 10 {
        String::from_str(digit_str(n))
    } else {
        let mut s = u64_dec_str(n / 10);
        s.append(digit_str(n % 10));
        s
    }
}

/// A bind-address string: the host, a colon, and the port in decimal.
pub open spec fn spec_addr(host: Seq<char>, port: u16) -> Seq<char> {
    host + seq![':'] + spec_dec_str(port as int)
}

fn make_addr(host: &str, port: u16) -> (r: String)
    ensures
        r@ == spec_addr(host@, port),
{
    proof {
        reveal_strlit(":");
    }
    let mut s = String::from_str(host);
    s.append(":");
    let p = u64_dec_str(port as u64);
    s.append(p.as_str());
    proof {
        assert(s@ =~= spec_addr(host@, port));
    }
    s
}

/// Recognized server options: bind interface, the UDP and HTTP ports, the
/// queue and socket sizing, the worker counts, the metrics period, the
/// WAV output directory, and the upstream session parameters.
#[derive(Debug, Clone)]
pub struct Config {
    /// Bind interface for all listeners.
    pub host: String,
    /// Base port (unused directly; the endpoint ports stand below).
    pub port: u16,
    /// UDP audio endpoint port.
    pub audio_port: u16,
    /// UDP sensor endpoint port.
    pub sensor_port: u16,
    /// UDP test endpoint port (echo, connectivity check).
    pub test_port: u16,
    /// HTTP control-surface port.
    pub api_port: u16,
    /// Size of every bounded in-process queue.
    pub channel_capacity: usize,
    /// Kernel receive buffer per UDP socket.
    pub recv_buf_size: usize,
    /// Parallel receivers per UDP endpoint (zero means one per CPU).
    pub recv_threads: usize,
    /// Affective workers (zero means one per CPU).
    pub proc_threads: usize,
    /// Metrics sampling period in seconds (zero disables).
    pub stats_interval_secs: u64,
    /// Directory that receives the session WAV files.
    pub audio_save_dir: String,
    /// Save debugging audio beside the session WAV files.
    pub save_debug_audio: bool,
    /// Enable the upstream cloud bridge.
    pub openai_realtime: bool,
    /// Bearer token for the upstream service.
    pub openai_api_key: String,
    /// Upstream model name.
    pub openai_model: String,
    /// Upstream voice name.
    pub openai_voice: String,
    /// Instruction text sent with the upstream session configuration.
    pub openai_instructions: String,
}

impl Config {
    /// The base listen address, `host:port`.
    pub fn listen_addr(&self) -> (r: String)
        ensures
            r@ == spec_addr(self.host@, self.port),
    {
        make_addr(self.host.as_str(), self.port)
    }

    /// The audio endpoint address, `host:audio_port`.
    pub fn audio_addr(&self) -> (r: String)
        ensures
            r@ == spec_addr(self.host@, self.audio_port),
    {
        make_addr(self.host.as_str(), self.audio_port)
    }

    /// The sensor endpoint address, `host:sensor_port`.
    pub fn sensor_addr(&self) -> (r: String)
        ensures
            r@ == spec_addr(self.host@, self.sensor_port),
    {
        make_addr(self.host.as_str(), self.sensor_port)
    }

    /// The test endpoint address, `host:test_port`.
    pub fn test_addr(&self) -> (r: String)
        ensures
            r@ == spec_addr(self.host@, self.test_port),
    {
        make_addr(self.host.as_str(), self.test_port)
    }

    /// The receiver count to use: the configured one, or `num_cpus` when
    /// the configured count is zero.
    pub fn resolved_recv_threads(&self, num_cpus: usize) -> (r: usize)
        ensures
            r == (if self.recv_threads == 0 {
                num_cpus
            } else {
                self.recv_threads
            }),
    {
        if self.recv_threads == 0 {
            num_cpus
        } else {
            self.recv_threads
        }
    }

    /// The worker count to use: the configured one, or `num_cpus` when
    /// the configured count is zero.
    pub fn resolved_proc_threads(&self, num_cpus: usize) -> (r: usize)
        ensures
            r == (if self.proc_threads == 0 {
                num_cpus
            } else {
                self.proc_threads
            }),
    {
        if self.proc_threads == 0 {
            num_cpus
        } else {
            self.proc_threads
        }
    }
}

} // verus!
