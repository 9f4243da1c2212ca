use crate::deck::{carta_valida, cartas_validas, lemma_mismo_multiconjunto, Carta};
use crate::player::{lemma_suma_push, puntaje_mano, registra_victoria, suma_bruta, Jugador};
use vstd::prelude::*;
use vstd::seq_lib::lemma_multiset_commutative;

verus! {

/// Cartas en juego bien formadas: todas validas y ningun par
/// (valor, palo) repetido entre las manos y la baraja.
pub open spec fn cartas_en_juego_validas(todas: Seq<Carta>) -> bool {
    cartas_validas(todas) && todas.no_duplicates()
}

/// La mesa de una partida: las dos manos y la baraja, sin carta
/// repetida entre las tres partes.
pub open spec fn mesa_valida(jugador: Jugador, banca: Jugador, baraja: Seq<Carta>) -> bool {
    cartas_en_juego_validas(jugador.mano@ + banca.mano@ + baraja)
}

/// Pasar la ultima carta de la baraja a la primera mano no cambia el
/// multiconjunto de cartas en juego.
pub proof fn lemma_mover_a_primera(a: Seq<Carta>, b: Seq<Carta>, c: Seq<Carta>)
    requires
        c.len() > 0,
    ensures
        (a.push(c.last()) + b + c.drop_last()).to_multiset() == (a + b + c).to_multiset(),
{
    broadcast use vstd::seq_lib::group_to_multiset_ensures;

    let x = c.last();
    lemma_multiset_commutative(a.push(x) + b, c.drop_last());
    lemma_multiset_commutative(a.push(x), b);
    lemma_multiset_commutative(a + b, c);
    lemma_multiset_commutative(a, b);
    assert(c =~= c.drop_last().push(x));
    assert(c.to_multiset() == c.drop_last().push(x).to_multiset());
    assert(c.drop_last().push(x).to_multiset() =~= c.drop_last().to_multiset().insert(x));
    assert(a.push(x).to_multiset() =~= a.to_multiset().insert(x));
    assert((a.push(x) + b + c.drop_last()).to_multiset() =~= (a + b + c).to_multiset());
}

/// Pasar la ultima carta de la baraja a la segunda mano no cambia el
/// multiconjunto de cartas en juego.
pub proof fn lemma_mover_a_segunda(a: Seq<Carta>, b: Seq<Carta>, c: Seq<Carta>)
    requires
        c.len() > 0,
    ensures
        (a + b.push(c.last()) + c.drop_last()).to_multiset() == (a + b + c).to_multiset(),
{
    broadcast use vstd::seq_lib::group_to_multiset_ensures;

    let x = c.last();
    lemma_multiset_commutative(a + b.push(x), c.drop_last());
    lemma_multiset_commutative(a, b.push(x));
    lemma_multiset_commutative(a + b, c);
    lemma_multiset_commutative(a, b);
    assert(c =~= c.drop_last().push(x));
    assert(c.to_multiset() == c.drop_last().push(x).to_multiset());
    assert(c.drop_last().push(x).to_multiset() =~= c.drop_last().to_multiset().insert(x));
    assert(b.push(x).to_multiset() =~= b.to_multiset().insert(x));
    assert((a + b.push(x) + c.drop_last()).to_multiset() =~= (a + b + c).to_multiset());
}

/// Robar de la baraja hacia la primera mano conserva la mesa.
pub proof fn lemma_mesa_robo_primera(a: Seq<Carta>, b: Seq<Carta>, c: Seq<Carta>)
    requires
        cartas_en_juego_validas(a + b + c),
        c.len() > 0,
    ensures
        cartas_en_juego_validas(a.push(c.last()) + b + c.drop_last()),
{
    lemma_mover_a_primera(a, b, c);
    lemma_mismo_multiconjunto(a + b + c, a.push(c.last()) + b + c.drop_last());
}

/// Robar de la baraja hacia la segunda mano conserva la mesa.
pub proof fn lemma_mesa_robo_segunda(a: Seq<Carta>, b: Seq<Carta>, c: Seq<Carta>)
    requires
        cartas_en_juego_validas(a + b + c),
        c.len() > 0,
    ensures
        cartas_en_juego_validas(a + b.push(c.last()) + c.drop_last()),
{
    lemma_mover_a_segunda(a, b, c);
    lemma_mismo_multiconjunto(a + b + c, a + b.push(c.last()) + c.drop_last());
}

/// Todos los campos del jugador quedan como estaban.
pub open spec fn mismo_jugador(a: Jugador, b: Jugador) -> bool {
    &&& b.mano@ == a.mano@
    &&& b.nombre@ == a.nombre@
    &&& b.puntos == a.puntos
    &&& b.partidas_ganadas == a.partidas_ganadas
}

/// Reparte las dos cartas iniciales de cada uno, alternando jugador,
/// banca, jugador, banca, y deja ambos puntajes recalculados.
pub fn repartir_cartas(jugador: &mut Jugador, banca: &mut Jugador, baraja: &mut Vec<Carta>)
    requires
        old(baraja)@.len() >= 4,
        cartas_validas(old(baraja)@),
        suma_bruta(old(jugador).mano@) <= 233,
        suma_bruta(old(banca).mano@) <= 233,
    ensures
        ({
            let n = old(baraja)@.len() as int;
            &&& final(jugador).mano@ == old(jugador).mano@.push(old(baraja)@[n - 1]).push(
                old(baraja)@[n - 3],
            )
            &&& final(banca).mano@ == old(banca).mano@.push(old(baraja)@[n - 2]).push(
                old(baraja)@[n - 4],
            )
            &&& final(baraja)@ == old(baraja)@.take(n - 4)
        }),
        final(jugador).puntos as int == puntaje_mano(final(jugador).mano@),
        final(banca).puntos as int == puntaje_mano(final(banca).mano@),
        final(jugador).nombre@ == old(jugador).nombre@,
        final(banca).nombre@ == old(banca).nombre@,
        final(jugador).partidas_ganadas == old(jugador).partidas_ganadas,
        final(banca).partidas_ganadas == old(banca).partidas_ganadas,
{
    let ghost b0 = baraja@;
    let ghost n = baraja@.len() as int;
    jugador.tomar_carta(baraja);
    banca.tomar_carta(baraja);
    jugador.tomar_carta(baraja);
    banca.tomar_carta(baraja);
    proof {
        assert(b0.drop_last() =~= b0.take(n - 1));
        assert(b0.take(n - 1).drop_last() =~= b0.take(n - 2));
        assert(b0.take(n - 2).drop_last() =~= b0.take(n - 3));
        assert(b0.take(n - 3).drop_last() =~= b0.take(n - 4));
        lemma_suma_push(old(jugador).mano@, b0[n - 1]);
        lemma_suma_push(old(jugador).mano@.push(b0[n - 1]), b0[n - 3]);
        lemma_suma_push(old(banca).mano@, b0[n - 2]);
        lemma_suma_push(old(banca).mano@.push(b0[n - 2]), b0[n - 4]);
    }
    jugador.puntos = jugador.puntaje();
    banca.puntos = banca.puntaje();
}

/// Un turno: si `tomar_carta` es cierto roba una carta y recalcula el
/// puntaje; si no, no hace nada.
pub fn jugar_turno(jugador: &mut Jugador, baraja: &mut Vec<Carta>, tomar_carta: bool)
    requires
        tomar_carta ==> suma_bruta(old(jugador).mano@) <= 244,
        tomar_carta && old(baraja)@.len() > 0 ==> carta_valida(old(baraja)@.last()),
    ensures
        !tomar_carta ==> mismo_jugador(*old(jugador), *final(jugador)) && final(baraja)@ == old(
            baraja,
        )@,
        tomar_carta && old(baraja)@.len() > 0 ==> {
            &&& final(jugador).mano@ == old(jugador).mano@.push(old(baraja)@.last())
            &&& final(baraja)@ == old(baraja)@.drop_last()
        },
        tomar_carta && old(baraja)@.len() == 0 ==> final(jugador).mano@ == old(jugador).mano@
            && final(baraja)@ == old(baraja)@,
        tomar_carta ==> final(jugador).puntos as int == puntaje_mano(final(jugador).mano@),
        final(jugador).nombre@ == old(jugador).nombre@,
        final(jugador).partidas_ganadas == old(jugador).partidas_ganadas,
{
    if tomar_carta {
        let ghost b0 = baraja@;
        jugador.tomar_carta(baraja);
        proof {
            if b0.len() > 0 {
                lemma_suma_push(old(jugador).mano@, b0.last());
            }
        }
        jugador.puntos = jugador.puntaje();
    }
}

/// Decide la partida sobre los puntajes ya calculados, apunta la
/// victoria a quien corresponda y devuelve el mensaje del resultado.
/// El orden de las reglas es el del juego: primero se mira si el
/// jugador se paso, luego la banca, y al final se comparan puntos.
pub fn determinar_ganador(jugador: &mut Jugador, banca: &mut Jugador) -> (r: String)
    requires
        old(jugador).partidas_ganadas < u32::MAX,
        old(banca).partidas_ganadas < u32::MAX,
    ensures
        final(jugador).mano@ == old(jugador).mano@,
        final(banca).mano@ == old(banca).mano@,
        final(jugador).nombre@ == old(jugador).nombre@,
        final(banca).nombre@ == old(banca).nombre@,
        final(jugador).puntos == old(jugador).puntos,
        final(banca).puntos == old(banca).puntos,
        ({
            let pj = old(jugador).puntos;
            let pb = old(banca).puntos;
            if pj > 21 {
                &&& r@ == "Te has pasado. ¡La banca gana!"@
                &&& registra_victoria(*old(banca), *final(banca))
                &&& final(jugador).partidas_ganadas == old(jugador).partidas_ganadas
            } else if pb > 21 {
                &&& r@ == "La banca se ha pasado. ¡Has ganado!"@
                &&& registra_victoria(*old(jugador), *final(jugador))
                &&& final(banca).partidas_ganadas == old(banca).partidas_ganadas
            } else if pj > pb {
                &&& r@ == "¡Has ganado!"@
                &&& registra_victoria(*old(jugador), *final(jugador))
                &&& final(banca).partidas_ganadas == old(banca).partidas_ganadas
            } else if pb > pj {
                &&& r@ == "La banca gana."@
                &&& registra_victoria(*old(banca), *final(banca))
                &&& final(jugador).partidas_ganadas == old(jugador).partidas_ganadas
            } else {
                &&& r@ == "Empate."@
                &&& final(jugador).partidas_ganadas == old(jugador).partidas_ganadas
                &&& final(banca).partidas_ganadas == old(banca).partidas_ganadas
            }
        }),
{
    let puntos_jugador = jugador.puntos;
    let puntos_banca = banca.puntos;

    let mensaje = if puntos_jugador > 21 {
        banca.partida_ganada();
        "Te has pasado. ¡La banca gana!"
    } else if puntos_banca > 21 {
        jugador.partida_ganada();
        "La banca se ha pasado. ¡Has ganado!"
    } else if puntos_jugador > puntos_banca {
        jugador.partida_ganada();
        "¡Has ganado!"
    } else if puntos_banca > puntos_jugador {
        banca.partida_ganada();
        "La banca gana."
    } else {
        "Empate."
    };
    mensaje.to_string()
}

} // verus!
