#version 450

// The Lomb-Scargle power of one trial frequency per invocation, in 32-bit
// floating point and in the accumulation order of the CPU kernel.

layout(local_size_x = 64) in;

layout(std430, set = 0, binding = 0) readonly buffer Coordinates { float x[]; };
layout(std430, set = 0, binding = 1) readonly buffer Values { float y[]; };
layout(std430, set = 0, binding = 2) writeonly buffer Powers { float powers[]; };

layout(push_constant) uniform Search {
    uint sample_count;
    uint frequency_count;
    float start_frequency;
    float frequency_step;
    float normalization;
} search;

const float PI = 3.14159265358979323846;

void main() {
    uint index = gl_GlobalInvocationID.x;
    if (index >= search.frequency_count) {
        return;
    }
    precise float frequency = search.start_frequency + float(index) * search.frequency_step;
    precise float omega = 2.0 * PI * frequency;
    precise float sum_sin_2wt = 0.0;
    precise float sum_cos_2wt = 0.0;
    for (uint i = 0; i < search.sample_count; ++i) {
        sum_sin_2wt += sin(2.0 * omega * x[i]);
        sum_cos_2wt += cos(2.0 * omega * x[i]);
    }
    precise float tau = atan(sum_sin_2wt, sum_cos_2wt) / (2.0 * omega);
    precise float sum_y_cos = 0.0;
    precise float sum_y_sin = 0.0;
    precise float sum_cos_squared = 0.0;
    precise float sum_sin_squared = 0.0;
    for (uint i = 0; i < search.sample_count; ++i) {
        precise float shifted = omega * (x[i] - tau);
        precise float cosine = cos(shifted);
        precise float sine = sin(shifted);
        sum_y_cos += y[i] * cosine;
        sum_y_sin += y[i] * sine;
        sum_cos_squared += cosine * cosine;
        sum_sin_squared += sine * sine;
    }
    powers[index] = ((sum_y_cos * sum_y_cos / sum_cos_squared)
        + (sum_y_sin * sum_y_sin / sum_sin_squared)) / search.normalization;
}
