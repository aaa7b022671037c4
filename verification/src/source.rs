use vstd::prelude::*;

verus! {

/// HLSL source of the affine kernels.
pub const AFFINE: &'static str = r#"// Affine map: output[i] = input[i] * mul + add.
cbuffer Params : register(b0)
{
    uint count;
    uint mul_bits;
    uint add_bits;
    uint num_dims;
};

StructuredBuffer<float> input : register(t0);
ByteAddressBuffer layout_meta : register(t1);
RWStructuredBuffer<float> output : register(u0);

// Offset of the i-th element (row-major order) of a strided tensor whose
// dims[] then strides[] are stored as u32 words in layout_meta.
uint strided_index(uint i, uint ndims)
{
    uint idx = 0;
    for (int d = (int)ndims - 1; d >= 0; d--)
    {
        uint dim = layout_meta.Load((uint)d * 4);
        uint stride = layout_meta.Load((ndims + (uint)d) * 4);
        idx += (i % dim) * stride;
        i /= dim;
    }
    return idx;
}

[numthreads(256, 1, 1)]
void affine_f32(uint3 tid : SV_DispatchThreadID)
{
    uint i = tid.x;
    if (i >= count) return;
    output[i] = input[i] * asfloat(mul_bits) + asfloat(add_bits);
}

[numthreads(256, 1, 1)]
void affine_f32_strided(uint3 tid : SV_DispatchThreadID)
{
    uint i = tid.x;
    if (i >= count) return;
    output[i] = input[strided_index(i, num_dims)] * asfloat(mul_bits) + asfloat(add_bits);
}
"#;

/// HLSL source of the binary kernels.
pub const BINARY: &'static str = r#"// Elementwise binary operations on f32.
cbuffer Params : register(b0)
{
    uint count;
    uint num_dims;
};

StructuredBuffer<float> lhs : register(t0);
StructuredBuffer<float> rhs : register(t1);
ByteAddressBuffer lhs_meta : register(t2);
ByteAddressBuffer rhs_meta : register(t3);
RWStructuredBuffer<float> output : register(u0);

uint lhs_index(uint i)
{
    uint idx = 0;
    for (int d = (int)num_dims - 1; d >= 0; d--)
    {
        uint dim = lhs_meta.Load((uint)d * 4);
        idx += (i % dim) * lhs_meta.Load((num_dims + (uint)d) * 4);
        i /= dim;
    }
    return idx;
}

uint rhs_index(uint i)
{
    uint idx = 0;
    for (int d = (int)num_dims - 1; d >= 0; d--)
    {
        uint dim = rhs_meta.Load((uint)d * 4);
        idx += (i % dim) * rhs_meta.Load((num_dims + (uint)d) * 4);
        i /= dim;
    }
    return idx;
}

#define BINARY_OP(NAME, EXPR) \
[numthreads(256, 1, 1)] \
void NAME##_f32(uint3 tid : SV_DispatchThreadID) \
{ \
    uint i = tid.x; \
    if (i >= count) return; \
    float a = lhs[i]; \
    float b = rhs[i]; \
    output[i] = (EXPR); \
} \
[numthreads(256, 1, 1)] \
void NAME##_f32_strided(uint3 tid : SV_DispatchThreadID) \
{ \
    uint i = tid.x; \
    if (i >= count) return; \
    float a = lhs[lhs_index(i)]; \
    float b = rhs[rhs_index(i)]; \
    output[i] = (EXPR); \
}

BINARY_OP(add, a + b)
BINARY_OP(sub, a - b)
BINARY_OP(mul, a * b)
BINARY_OP(div, a / b)
BINARY_OP(max, max(a, b))
BINARY_OP(min, min(a, b))
"#;

/// HLSL source of the cast kernels.
pub const CAST: &'static str = r#"// Element type conversions.
cbuffer Params : register(b0)
{
    uint count;
};

StructuredBuffer<float> input_f32 : register(t0);
StructuredBuffer<uint> input_u32 : register(t0);
ByteAddressBuffer input_raw : register(t0);
RWStructuredBuffer<uint> output_u32 : register(u0);
RWStructuredBuffer<float> output_f32 : register(u0);

[numthreads(256, 1, 1)]
void cast_f32_to_u32(uint3 tid : SV_DispatchThreadID)
{
    uint i = tid.x;
    if (i >= count) return;
    output_u32[i] = (uint)max(input_f32[i], 0.0);
}

[numthreads(256, 1, 1)]
void cast_u32_to_f32(uint3 tid : SV_DispatchThreadID)
{
    uint i = tid.x;
    if (i >= count) return;
    output_f32[i] = (float)input_u32[i];
}

[numthreads(256, 1, 1)]
void cast_f64_to_f32(uint3 tid : SV_DispatchThreadID)
{
    uint i = tid.x;
    if (i >= count) return;
    uint2 bits = input_raw.Load2(i * 8);
    output_f32[i] = (float)asdouble(bits.x, bits.y);
}
"#;

/// HLSL source of the conv kernels.
pub const CONV: &'static str = r#"// 1D convolution: input (b, c_in, l_in), kernel (c_out, c_in, k_size),
// output (b, c_out, l_out).
cbuffer Params : register(b0)
{
    uint batch_size;
    uint c_in;
    uint c_out;
    uint l_in;
    uint l_out;
    uint k_size;
    uint stride;
    uint padding;
    uint dilation;
};

StructuredBuffer<float> input : register(t0);
StructuredBuffer<float> kernel_w : register(t1);
RWStructuredBuffer<float> output : register(u0);

[numthreads(256, 1, 1)]
void conv1d_f32(uint3 tid : SV_DispatchThreadID)
{
    uint i = tid.x;
    if (i >= batch_size * c_out * l_out) return;
    uint pos = i % l_out;
    uint oc = (i / l_out) % c_out;
    uint b = i / (l_out * c_out);
    float acc = 0.0;
    for (uint ic = 0; ic < c_in; ic++)
    {
        for (uint k = 0; k < k_size; k++)
        {
            int src = (int)(pos * stride + k * dilation) - (int)padding;
            if (src >= 0 && src < (int)l_in)
            {
                acc += input[(b * c_in + ic) * l_in + (uint)src]
                    * kernel_w[(oc * c_in + ic) * k_size + k];
            }
        }
    }
    output[i] = acc;
}
"#;

/// HLSL source of the fill kernels.
pub const FILL: &'static str = r#"// Fill a buffer with one value.
cbuffer Params : register(b0)
{
    uint count;
    uint value_bits;
};

RWStructuredBuffer<float> output_f32 : register(u0);
RWStructuredBuffer<uint> output_u32 : register(u0);
RWByteAddressBuffer output_raw : register(u0);

[numthreads(256, 1, 1)]
void fill_f32(uint3 tid : SV_DispatchThreadID)
{
    uint i = tid.x;
    if (i >= count) return;
    output_f32[i] = asfloat(value_bits);
}

[numthreads(256, 1, 1)]
void fill_u32(uint3 tid : SV_DispatchThreadID)
{
    uint i = tid.x;
    if (i >= count) return;
    output_u32[i] = (uint)max(asfloat(value_bits), 0.0);
}

// One thread per 32-bit word; bytes past `count` keep their value.
[numthreads(256, 1, 1)]
void fill_u8(uint3 tid : SV_DispatchThreadID)
{
    uint w = tid.x;
    if (w * 4 >= count) return;
    uint byte = ((uint)max(asfloat(value_bits), 0.0)) & 0xff;
    uint word = output_raw.Load(w * 4);
    for (uint k = 0; k < 4; k++)
    {
        if (w * 4 + k < count)
        {
            word = (word & ~(0xffu << (8 * k))) | (byte << (8 * k));
        }
    }
    output_raw.Store(w * 4, word);
}
"#;

/// HLSL source of the indexing kernels.
pub const INDEXING: &'static str = r#"// Index select, gather, strided copy and 2D copy on f32.
cbuffer Params : register(b0)
{
    uint p0;
    uint p1;
    uint p2;
    uint p3;
    uint p4;
    uint p5;
};

StructuredBuffer<float> input : register(t0);
StructuredBuffer<uint> indices : register(t1);
ByteAddressBuffer layout_meta : register(t1);
RWStructuredBuffer<float> output : register(u0);

// p0 = count, p1 = left_size, p2 = dim_size, p3 = right_size.
[numthreads(256, 1, 1)]
void index_select_f32(uint3 tid : SV_DispatchThreadID)
{
    uint i = tid.x;
    if (i >= p0) return;
    uint right = i % p3;
    uint rest = i / p3;
    uint num_ids = p0 / max(p1 * p3, 1);
    uint id = rest % num_ids;
    uint left = rest / num_ids;
    output[i] = input[(left * p2 + indices[id]) * p3 + right];
}

// p0 = count, p1 = left_size, p2 = dim_size, p3 = right_size, p4 = idx_dim_size.
[numthreads(256, 1, 1)]
void gather_f32(uint3 tid : SV_DispatchThreadID)
{
    uint i = tid.x;
    if (i >= p0) return;
    uint right = i % p3;
    uint left = i / (p3 * p4);
    output[i] = input[(left * p2 + indices[i]) * p3 + right];
}

// p0 = count, p1 = num_dims, p2 = dst_offset.
[numthreads(256, 1, 1)]
void copy_strided_f32(uint3 tid : SV_DispatchThreadID)
{
    uint i = tid.x;
    if (i >= p0) return;
    uint idx = 0;
    uint rem = i;
    for (int d = (int)p1 - 1; d >= 0; d--)
    {
        uint dim = layout_meta.Load((uint)d * 4);
        idx += (rem % dim) * layout_meta.Load((p1 + (uint)d) * 4);
        rem /= dim;
    }
    output[p2 + i] = input[idx];
}

// p0 = d1, p1 = d2, p2 = src_stride, p3 = dst_stride, p4 = src_offset, p5 = dst_offset.
[numthreads(16, 16, 1)]
void copy2d_f32(uint3 tid : SV_DispatchThreadID)
{
    uint i1 = tid.x;
    uint i2 = tid.y;
    if (i1 >= p0 || i2 >= p1) return;
    output[p5 + i1 * p3 + i2] = input[p4 + i1 * p2 + i2];
}
"#;

/// HLSL source of the matmul kernels.
pub const MATMUL: &'static str = r#"// Batched matrix multiplication C = A * B with A (batch, m, k), B (batch, k, n),
// C (batch, m, n) contiguous; A and B have arbitrary strides.
cbuffer Params : register(b0)
{
    uint batch_size;
    uint m;
    uint n;
    uint k;
    uint lhs_stride_b;
    uint lhs_stride_m;
    uint lhs_stride_k;
    uint rhs_stride_b;
    uint rhs_stride_k;
    uint rhs_stride_n;
};

StructuredBuffer<float> a : register(t0);
StructuredBuffer<float> b : register(t1);
RWStructuredBuffer<float> c : register(u0);

[numthreads(8, 8, 1)]
void matmul_f32(uint3 tid : SV_DispatchThreadID)
{
    uint col = tid.x;
    uint row = tid.y;
    uint batch = tid.z;
    if (col >= n || row >= m || batch >= batch_size) return;
    float acc = 0.0;
    for (uint p = 0; p < k; p++)
    {
        acc += a[batch * lhs_stride_b + row * lhs_stride_m + p * lhs_stride_k]
            * b[batch * rhs_stride_b + p * rhs_stride_k + col * rhs_stride_n];
    }
    c[(batch * m + row) * n + col] = acc;
}
"#;

/// HLSL source of the reduce kernels.
pub const REDUCE: &'static str = r#"// Reductions over consecutive runs of `work_per_group` elements, one thread
// group per output element, and softmax over rows.
cbuffer Params : register(b0)
{
    uint p0;
    uint p1;
    uint p2;
    uint p3;
};

StructuredBuffer<float> input : register(t0);
RWStructuredBuffer<float> output : register(u0);
RWStructuredBuffer<uint> output_idx : register(u0);

groupshared float shared_val[256];
groupshared uint shared_idx[256];

#define REDUCE_OP(NAME, INIT, COMBINE, FINISH) \
[numthreads(256, 1, 1)] \
void NAME(uint3 gid : SV_GroupID, uint3 lid : SV_GroupThreadID) \
{ \
    uint group = gid.x; \
    uint t = lid.x; \
    uint work = p2; \
    uint base = group * work; \
    float acc = INIT; \
    for (uint j = t; j < work; j += 256) \
    { \
        float v = input[base + j]; \
        acc = COMBINE; \
    } \
    shared_val[t] = acc; \
    GroupMemoryBarrierWithGroupSync(); \
    for (uint s = 128; s > 0; s >>= 1) \
    { \
        if (t < s) \
        { \
            float v = shared_val[t + s]; \
            acc = shared_val[t]; \
            shared_val[t] = COMBINE; \
        } \
        GroupMemoryBarrierWithGroupSync(); \
    } \
    if (t == 0) \
    { \
        float total = shared_val[0]; \
        output[group] = FINISH; \
    } \
}

REDUCE_OP(sum_f32, 0.0, acc + v, total)
REDUCE_OP(mean_f32, 0.0, acc + v, total / (float)work)
REDUCE_OP(max_f32, -3.402823466e+38, max(acc, v), total)
REDUCE_OP(min_f32, 3.402823466e+38, min(acc, v), total)

#define ARG_REDUCE_OP(NAME, INIT, BETTER) \
[numthreads(256, 1, 1)] \
void NAME(uint3 gid : SV_GroupID, uint3 lid : SV_GroupThreadID) \
{ \
    uint group = gid.x; \
    uint t = lid.x; \
    uint work = p2; \
    uint base = group * work; \
    float best = INIT; \
    uint best_idx = 0; \
    for (uint j = t; j < work; j += 256) \
    { \
        float v = input[base + j]; \
        if (BETTER(v, best)) { best = v; best_idx = j; } \
    } \
    shared_val[t] = best; \
    shared_idx[t] = best_idx; \
    GroupMemoryBarrierWithGroupSync(); \
    for (uint s = 128; s > 0; s >>= 1) \
    { \
        if (t < s) \
        { \
            float v = shared_val[t + s]; \
            uint vi = shared_idx[t + s]; \
            if (BETTER(v, shared_val[t]) || (v == shared_val[t] && vi < shared_idx[t])) \
            { \
                shared_val[t] = v; \
                shared_idx[t] = vi; \
            } \
        } \
        GroupMemoryBarrierWithGroupSync(); \
    } \
    if (t == 0) output_idx[group] = shared_idx[0]; \
}

#define GREATER(x, y) ((x) > (y))
#define LESS(x, y) ((x) < (y))
ARG_REDUCE_OP(argmax_f32, -3.402823466e+38, GREATER)
ARG_REDUCE_OP(argmin_f32, 3.402823466e+38, LESS)

// p0 = row_size, p1 = num_rows.
[numthreads(256, 1, 1)]
void softmax_f32(uint3 gid : SV_GroupID, uint3 lid : SV_GroupThreadID)
{
    uint row = gid.x;
    uint t = lid.x;
    uint base = row * p0;
    float m = -3.402823466e+38;
    for (uint j = t; j < p0; j += 256) m = max(m, input[base + j]);
    shared_val[t] = m;
    GroupMemoryBarrierWithGroupSync();
    for (uint s = 128; s > 0; s >>= 1)
    {
        if (t < s) shared_val[t] = max(shared_val[t], shared_val[t + s]);
        GroupMemoryBarrierWithGroupSync();
    }
    float row_max = shared_val[0];
    GroupMemoryBarrierWithGroupSync();
    float sum = 0.0;
    for (uint j2 = t; j2 < p0; j2 += 256) sum += exp(input[base + j2] - row_max);
    shared_val[t] = sum;
    GroupMemoryBarrierWithGroupSync();
    for (uint s2 = 128; s2 > 0; s2 >>= 1)
    {
        if (t < s2) shared_val[t] += shared_val[t + s2];
        GroupMemoryBarrierWithGroupSync();
    }
    float total = shared_val[0];
    for (uint j3 = t; j3 < p0; j3 += 256)
    {
        output[base + j3] = exp(input[base + j3] - row_max) / total;
    }
}
"#;

/// HLSL source of the ternary kernels.
pub const TERNARY: &'static str = r#"// Select: output[i] = cond[i] != 0 ? on_true[i] : on_false[i], with the u8
// conditions packed four to a u32 word.
cbuffer Params : register(b0)
{
    uint count;
};

StructuredBuffer<uint> cond : register(t0);
StructuredBuffer<float> on_true : register(t1);
StructuredBuffer<float> on_false : register(t2);
RWStructuredBuffer<float> output : register(u0);

[numthreads(256, 1, 1)]
void where_f32(uint3 tid : SV_DispatchThreadID)
{
    uint i = tid.x;
    if (i >= count) return;
    uint c = (cond[i / 4] >> (8 * (i % 4))) & 0xff;
    output[i] = c != 0 ? on_true[i] : on_false[i];
}
"#;

/// HLSL source of the unary kernels.
pub const UNARY: &'static str = r#"// Elementwise unary operations on f32, contiguous and strided.
cbuffer Params : register(b0)
{
    uint count;
    uint num_dims;
};

StructuredBuffer<float> input : register(t0);
ByteAddressBuffer layout_meta : register(t1);
RWStructuredBuffer<float> output : register(u0);

uint strided_index(uint i)
{
    uint idx = 0;
    for (int d = (int)num_dims - 1; d >= 0; d--)
    {
        uint dim = layout_meta.Load((uint)d * 4);
        idx += (i % dim) * layout_meta.Load((num_dims + (uint)d) * 4);
        i /= dim;
    }
    return idx;
}

// Abramowitz and Stegun 7.1.26.
float erf_approx(float x)
{
    float s = sign(x);
    float a = abs(x);
    float t = 1.0 / (1.0 + 0.3275911 * a);
    float y = 1.0 - (((((1.061405429 * t - 1.453152027) * t) + 1.421413741) * t
        - 0.284496736) * t + 0.254829592) * t * exp(-a * a);
    return s * y;
}

#define UNARY_OP(NAME, EXPR) \
[numthreads(256, 1, 1)] \
void NAME##_f32(uint3 tid : SV_DispatchThreadID) \
{ \
    uint i = tid.x; \
    if (i >= count) return; \
    float x = input[i]; \
    output[i] = (EXPR); \
} \
[numthreads(256, 1, 1)] \
void NAME##_f32_strided(uint3 tid : SV_DispatchThreadID) \
{ \
    uint i = tid.x; \
    if (i >= count) return; \
    float x = input[strided_index(i)]; \
    output[i] = (EXPR); \
}

UNARY_OP(copy, x)
UNARY_OP(neg, -x)
UNARY_OP(abs, abs(x))
UNARY_OP(exp, exp(x))
UNARY_OP(log, log(x))
UNARY_OP(sin, sin(x))
UNARY_OP(cos, cos(x))
UNARY_OP(sqrt, sqrt(x))
UNARY_OP(sqr, x * x)
UNARY_OP(recip, 1.0 / x)
UNARY_OP(relu, max(x, 0.0))
UNARY_OP(tanh, tanh(x))
UNARY_OP(gelu, 0.5 * x * (1.0 + tanh(0.7978845608 * (x + 0.044715 * x * x * x))))
UNARY_OP(gelu_erf, 0.5 * x * (1.0 + erf_approx(x * 0.7071067812)))
UNARY_OP(silu, x / (1.0 + exp(-x)))
UNARY_OP(ceil, ceil(x))
UNARY_OP(floor, floor(x))
UNARY_OP(round, round(x))
"#;

/// The HLSL source files of the compute kernels.
#[derive(Debug, Clone, Copy, PartialEq, Eq, Structural, Hash)]
pub enum Source {
    Affine,
    Binary,
    Cast,
    Conv,
    Fill,
    Indexing,
    Matmul,
    Reduce,
    Ternary,
    Unary,
}

impl Source {
    pub open spec fn spec_hlsl_source(self) -> &'static str {
        match self {
            Source::Affine => AFFINE,
            Source::Binary => BINARY,
            Source::Cast => CAST,
            Source::Conv => CONV,
            Source::Fill => FILL,
            Source::Indexing => INDEXING,
            Source::Matmul => MATMUL,
            Source::Reduce => REDUCE,
            Source::Ternary => TERNARY,
            Source::Unary => UNARY,
        }
    }

    /// The HLSL text of this source file.
    pub fn hlsl_source(&self) -> (r: &'static str)
        ensures
            r == self.spec_hlsl_source(),
    {
        match self {
            Self::Affine => AFFINE,
            Self::Binary => BINARY,
            Self::Cast => CAST,
            Self::Conv => CONV,
            Self::Fill => FILL,
            Self::Indexing => INDEXING,
            Self::Matmul => MATMUL,
            Self::Reduce => REDUCE,
            Self::Ternary => TERNARY,
            Self::Unary => UNARY,
        }
    }
}

} // verus!
