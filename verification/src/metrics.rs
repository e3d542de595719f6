//! Process-wide traffic counters and their rendering.

use crate::text::{decimal, digit_char, push_decimal};
use vstd::prelude::*;
use vstd::string::StringExecFns;

verus! {

/// Traffic counters of the gateway. Every field is an independent counter or
/// last value; no field constrains another.
#[derive(Debug, Clone, Copy, PartialEq, Eq, Structural)]
pub struct GatewayMetrics {
    /// Requests received, of any kind.
    pub total_requests: u64,
    /// Requests answered from a backend's response.
    pub successful_requests: u64,
    /// Requests that were rejected or could not be forwarded.
    pub failed_requests: u64,
    /// Requests refused because their backend was marked unhealthy.
    pub service_errors: u64,
    /// Smoothed latency of forwarded requests, in milliseconds. It means
    /// something only once a latency has been recorded; until then it is 0.
    pub average_response_time_ms: u64,
    /// Has a latency been recorded?
    pub response_time_recorded: bool,
    /// Requests currently being handled.
    pub active_connections: u64,
}

/// `x + 1`, wrapping around at the upper bound of `u64`.
pub open spec fn wrapping_inc(x: u64) -> u64 {
    if x == u64::MAX {
        0
    } else {
        (x + 1) as u64
    }
}

/// `x - 1`, stopping at zero: a count of requests in flight never goes
/// below none.
pub open spec fn saturating_dec(x: u64) -> u64 {
    if x == 0 {
        0
    } else {
        (x - 1) as u64
    }
}

/// The smoothed latency after a sample of `sample_ms`: the sample itself
/// where no latency is on record, else the mean of the recorded value and
/// the sample, rounded down. A recorded value of 0 is a value like any
/// other. This is exponential smoothing with factor one half, not an average
/// over a window.
pub open spec fn smoothed_latency(recorded: bool, previous: u64, sample_ms: u64) -> u64 {
    if !recorded {
        sample_ms
    } else {
        ((previous + sample_ms) / 2) as u64
    }
}

/// The share of successful requests among all requests, in hundredths of a
/// percent; 0 when there has been no request. The exact quotient
/// `10000 * successful / total` is rounded to the nearest whole number, and
/// a quotient that lies exactly between two of them to the even one. The
/// rounding is this library's choice: it is computed on integers, and so
/// does not depend on how a floating-point division would fall.
pub open spec fn success_rate_hundredths(successful: u64, total: u64) -> nat {
    if total == 0 {
        0
    } else {
        let whole = (10000 * successful) / (total as int);
        let rest = (10000 * successful) % (total as int);
        if 2 * rest > total || (2 * rest == total && whole % 2 == 1) {
            (whole + 1) as nat
        } else {
            whole as nat
        }
    }
}

/// A number of hundredths written with two decimal places, as in `66.67`.
pub open spec fn two_decimals(hundredths: nat) -> Seq<char> {
    decimal(hundredths / 100) + seq!['.', digit_char((hundredths / 10) % 10), digit_char(
        hundredths % 10,
    )]
}

/// The rendering of the counters: a JSON object with one member per counter
/// and the success rate in percent as the last member.
pub open spec fn stats_text(m: GatewayMetrics) -> Seq<char> {
    "{\n                \"total_requests\": "@ + decimal(m.total_requests as nat)
        + ",\n                \"successful_requests\": "@ + decimal(m.successful_requests as nat)
        + ",\n                \"failed_requests\": "@ + decimal(m.failed_requests as nat)
        + ",\n                \"service_errors\": "@ + decimal(m.service_errors as nat)
        + ",\n                \"average_response_time_ms\": "@ + decimal(
        m.average_response_time_ms as nat,
    ) + ",\n                \"active_connections\": "@ + decimal(m.active_connections as nat)
        + ",\n                \"success_rate\": "@ + two_decimals(
        success_rate_hundredths(m.successful_requests, m.total_requests),
    ) + "\n            }"@
}

impl GatewayMetrics {
    /// Counters of a gateway that has seen no traffic.
    pub fn new() -> (m: Self)
        ensures
            m == (GatewayMetrics {
                total_requests: 0,
                successful_requests: 0,
                failed_requests: 0,
                service_errors: 0,
                average_response_time_ms: 0,
                response_time_recorded: false,
                active_connections: 0,
            }),
    {
        GatewayMetrics {
            total_requests: 0,
            successful_requests: 0,
            failed_requests: 0,
            service_errors: 0,
            average_response_time_ms: 0,
            response_time_recorded: false,
            active_connections: 0,
        }
    }

    /// Counts one received request.
    pub fn increment_total_requests(&mut self)
        ensures
            *final(self) == (GatewayMetrics {
                total_requests: wrapping_inc(old(self).total_requests),
                ..*old(self)
            }),
    {
        self.total_requests = self.total_requests.wrapping_add(1);
    }

    /// Counts one request answered from a backend's response.
    pub fn increment_successful_requests(&mut self)
        ensures
            *final(self) == (GatewayMetrics {
                successful_requests: wrapping_inc(old(self).successful_requests),
                ..*old(self)
            }),
    {
        self.successful_requests = self.successful_requests.wrapping_add(1);
    }

    /// Counts one rejected or failed request.
    pub fn increment_failed_requests(&mut self)
        ensures
            *final(self) == (GatewayMetrics {
                failed_requests: wrapping_inc(old(self).failed_requests),
                ..*old(self)
            }),
    {
        self.failed_requests = self.failed_requests.wrapping_add(1);
    }

    /// Counts one request refused because its backend was unhealthy.
    pub fn increment_service_errors(&mut self)
        ensures
            *final(self) == (GatewayMetrics {
                service_errors: wrapping_inc(old(self).service_errors),
                ..*old(self)
            }),
    {
        self.service_errors = self.service_errors.wrapping_add(1);
    }

    /// Folds one latency sample into the smoothed latency, and notes that a
    /// latency is on record.
    pub fn update_response_time(&mut self, duration_ms: u64)
        ensures
            *final(self) == (GatewayMetrics {
                average_response_time_ms: smoothed_latency(
                    old(self).response_time_recorded,
                    old(self).average_response_time_ms,
                    duration_ms,
                ),
                response_time_recorded: true,
                ..*old(self)
            }),
    {
        let new_avg = if !self.response_time_recorded {
            duration_ms
        } else {
            let sum: u128 = self.average_response_time_ms as u128 + duration_ms as u128;
            (sum / 2) as u64
        };
        self.average_response_time_ms = new_avg;
        self.response_time_recorded = true;
    }

    /// Counts one more request in flight.
    pub fn increment_active_connections(&mut self)
        ensures
            *final(self) == (GatewayMetrics {
                active_connections: wrapping_inc(old(self).active_connections),
                ..*old(self)
            }),
    {
        self.active_connections = self.active_connections.wrapping_add(1);
    }

    /// Counts one request in flight less. Where none is counted as in
    /// flight, the count stays at zero.
    pub fn decrement_active_connections(&mut self)
        ensures
            *final(self) == (GatewayMetrics {
                active_connections: saturating_dec(old(self).active_connections),
                ..*old(self)
            }),
    {
        self.active_connections = self.active_connections.saturating_sub(1);
    }

    /// The success rate in hundredths of a percent.
    pub fn success_rate(&self) -> (rate: u128)
        ensures
            rate == success_rate_hundredths(self.successful_requests, self.total_requests),
    {
        if self.total_requests == 0 {
            0
        } else {
            let total: u128 = self.total_requests as u128;
            let scaled: u128 = 10000 * (self.successful_requests as u128);
            let whole: u128 = scaled / total;
            let rest: u128 = scaled % total;
            if 2 * rest > total || (2 * rest == total && whole % 2 == 1) {
                whole + 1
            } else {
                whole
            }
        }
    }

    /// Renders the counters as the body of the metrics endpoint.
    pub fn get_stats(&self) -> (stats: String)
        ensures
            stats@ == stats_text(*self),
    {
        let mut stats = String::new();
        stats.append("{\n                \"total_requests\": ");
        push_decimal(&mut stats, self.total_requests as u128);
        stats.append(",\n                \"successful_requests\": ");
        push_decimal(&mut stats, self.successful_requests as u128);
        stats.append(",\n                \"failed_requests\": ");
        push_decimal(&mut stats, self.failed_requests as u128);
        stats.append(",\n                \"service_errors\": ");
        push_decimal(&mut stats, self.service_errors as u128);
        stats.append(",\n                \"average_response_time_ms\": ");
        push_decimal(&mut stats, self.average_response_time_ms as u128);
        stats.append(",\n                \"active_connections\": ");
        push_decimal(&mut stats, self.active_connections as u128);
        stats.append(",\n                \"success_rate\": ");
        push_two_decimals(&mut stats, self.success_rate());
        stats.append("\n            }");
        assert(stats@ =~= stats_text(*self));
        stats
    }
}

impl Default for GatewayMetrics {
    fn default() -> (m: Self)
        ensures
            m == (GatewayMetrics {
                total_requests: 0,
                successful_requests: 0,
                failed_requests: 0,
                service_errors: 0,
                average_response_time_ms: 0,
                response_time_recorded: false,
                active_connections: 0,
            }),
    {
        GatewayMetrics::new()
    }
}

/// Appends `hundredths` to `out`, written with two decimal places.
pub fn push_two_decimals(out: &mut String, hundredths: u128)
    ensures
        final(out)@ == old(out)@ + two_decimals(hundredths as nat),
{
    push_decimal(out, hundredths / 100);
    out.append(".");
    push_decimal(out, (hundredths / 10) % 10);
    push_decimal(out, hundredths % 10);
    proof {
        reveal_strlit(".");
        reveal_with_fuel(decimal, 2);
        assert(out@ =~= old(out)@ + two_decimals(hundredths as nat));
    }
}

} // verus!
